//! The outside work of the buy and unlist instructions, as a state machine:
//! the program decides, the runtime around it performs each action and
//! reports back how it went.

use vstd::prelude::*;

use crate::key::Key;

verus! {

/// A system-program transfer of lamports.
#[derive(Clone, Copy, Debug, PartialEq, Eq)]
pub struct LamportTransfer {
    pub from: Key,
    pub to: Key,
    pub lamports: u64,
}

/// A token-program transfer; the authority signs with `signer_seeds` when it
/// is a program-derived address (no seeds: the authority signed the request).
#[derive(Clone, Debug, PartialEq, Eq)]
pub struct TokenTransfer {
    pub from: Key,
    pub to: Key,
    pub authority: Key,
    pub amount: u64,
    pub signer_seeds: Vec<Vec<u8>>,
}

/// A token-program instruction that closes a token account and sends its
/// rent to `destination`.
#[derive(Clone, Debug, PartialEq, Eq)]
pub struct CloseAccount {
    pub account: Key,
    pub destination: Key,
    pub authority: Key,
    pub signer_seeds: Vec<Vec<u8>>,
}

#[derive(Clone, Copy, Debug, PartialEq, Eq)]
pub enum Stage {
    Start,
    Paying,
    Transferring,
    Reloading,
    Closing,
    Finished,
    Failed,
}

/// What the runtime reports after performing the last action.
#[derive(Clone, Copy, Debug, PartialEq, Eq)]
pub enum Event {
    /// Nothing was performed yet (the first step).
    Proceed,
    /// The last transfer or close succeeded.
    Succeeded,
    /// The last action failed.
    Failed,
    /// The token account was reloaded and holds this amount.
    Reloaded(u64),
}

/// What the runtime must do next.
#[derive(Clone, Copy, Debug, PartialEq, Eq)]
pub enum Action {
    /// Perform `payment`.
    TransferLamports,
    /// Perform `transfer`.
    TransferTokens,
    /// Reload the token account `close.account` and report its amount.
    ReloadTokenAccount,
    /// Perform `close`.
    CloseTokenAccount,
    /// The instruction succeeds.
    Finish,
    /// The instruction fails with the error of the action just performed.
    Fail,
}

/// The settlement of a sale or a withdrawal: an optional payment, the move
/// of the token out of the vault, then the vault's token account is reloaded
/// and closed once it is empty.
#[derive(Clone, Debug, PartialEq, Eq)]
pub struct Settlement {
    pub payment: Option<LamportTransfer>,
    pub transfer: TokenTransfer,
    /// Whether the outcome of `transfer` is disregarded.
    pub transfer_result_ignored: bool,
    pub close: CloseAccount,
    pub stage: Stage,
}

/// The settlement with its stage replaced.
pub open spec fn at_stage(s: Settlement, stage: Stage) -> Settlement {
    Settlement { stage: stage, ..s }
}

/// The transition table: the next stage and the action to perform.
pub open spec fn next(s: Settlement, event: Event) -> (Stage, Action) {
    match s.stage {
        Stage::Start => if s.payment is Some {
            (Stage::Paying, Action::TransferLamports)
        } else {
            (Stage::Transferring, Action::TransferTokens)
        },
        Stage::Paying => if event is Succeeded {
            (Stage::Transferring, Action::TransferTokens)
        } else {
            (Stage::Failed, Action::Fail)
        },
        Stage::Transferring => if event is Succeeded || s.transfer_result_ignored {
            (Stage::Reloading, Action::ReloadTokenAccount)
        } else {
            (Stage::Failed, Action::Fail)
        },
        Stage::Reloading => match event {
            Event::Reloaded(amount) => if amount == 0 {
                (Stage::Closing, Action::CloseTokenAccount)
            } else {
                (Stage::Finished, Action::Finish)
            },
            _ => (Stage::Failed, Action::Fail),
        },
        Stage::Closing => if event is Succeeded {
            (Stage::Finished, Action::Finish)
        } else {
            (Stage::Failed, Action::Fail)
        },
        Stage::Finished => (Stage::Finished, Action::Finish),
        Stage::Failed => (Stage::Failed, Action::Fail),
    }
}

/// The actions taken when the events are reported one after the other.
pub open spec fn run(s: Settlement, events: Seq<Event>) -> Seq<Action>
    decreases events.len(),
{
    if events.len() == 0 {
        Seq::empty()
    } else {
        let (stage, action) = next(s, events[0]);
        seq![action] + run(at_stage(s, stage), events.drop_first())
    }
}

impl Settlement {
    /// Advances the settlement by one reported event.
    pub fn step(&mut self, event: Event) -> (action: Action)
        ensures
            (final(self).stage, action) == next(*old(self), event),
            *final(self) == at_stage(*old(self), final(self).stage),
    {
        let (stage, action) = match self.stage {
            Stage::Start => if self.payment.is_some() {
                (Stage::Paying, Action::TransferLamports)
            } else {
                (Stage::Transferring, Action::TransferTokens)
            },
            Stage::Paying => match event {
                Event::Succeeded => (Stage::Transferring, Action::TransferTokens),
                _ => (Stage::Failed, Action::Fail),
            },
            Stage::Transferring => match event {
                Event::Succeeded => (Stage::Reloading, Action::ReloadTokenAccount),
                _ => if self.transfer_result_ignored {
                    (Stage::Reloading, Action::ReloadTokenAccount)
                } else {
                    (Stage::Failed, Action::Fail)
                },
            },
            Stage::Reloading => match event {
                Event::Reloaded(amount) => if amount == 0 {
                    (Stage::Closing, Action::CloseTokenAccount)
                } else {
                    (Stage::Finished, Action::Finish)
                },
                _ => (Stage::Failed, Action::Fail),
            },
            Stage::Closing => match event {
                Event::Succeeded => (Stage::Finished, Action::Finish),
                _ => (Stage::Failed, Action::Fail),
            },
            Stage::Finished => (Stage::Finished, Action::Finish),
            Stage::Failed => (Stage::Failed, Action::Fail),
        };
        self.stage = stage;
        action
    }
}

} // verus!
