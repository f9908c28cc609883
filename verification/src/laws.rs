//! Properties that relate several functions of the library, or every step
//! of a settlement.

use vstd::prelude::*;

use crate::instructions::buy_nft::{buy_accepted, buy_settlement, BuyNFT};
use crate::associated_token::spec_associated_token_address;
use crate::errors::{refused, HandlerError};
use crate::external::spec_metadata_creators;
use crate::external::spec_try_find_program_address;
use crate::instructions::buy_nft::buy_outcome;
use crate::instructions::list_nft::creator_outcome;
use crate::instructions::seeds::{metadata_seeds, seeds_view};
use crate::instructions::unlist_nft::unlist_outcome;
use crate::instructions::list_nft::{list_outcome, listed_vault, ListNFT};
use crate::instructions::settlement::{at_stage, next, run, Action, Event, LamportTransfer, Settlement, Stage};
use crate::instructions::unlist_nft::{unlist_accepted, unlist_settlement, UnlistNFT};
use crate::key::{lemma_view_injective, Key};
use crate::state::seller::SellerVault;
use crate::state::whitelisted_collection::{announced_name_len, WhitelistedCollection};
use vstd::bytes::{spec_u32_to_le_bytes, spec_u64_to_le_bytes};
use vstd::utf8::encode_utf8;

verus! {

/// A settlement that has finished or failed stays so, whatever is reported,
/// and repeats its last answer.
pub proof fn lemma_settled_is_final(s: Settlement, event: Event)
    requires
        s.stage == Stage::Finished || s.stage == Stage::Failed,
    ensures
        next(s, event).0 == s.stage,
        next(s, event).1 == (if s.stage == Stage::Finished { Action::Finish } else { Action::Fail }),
{
}

/// The vault's token account is closed only right after a reload reported it
/// empty.
pub proof fn lemma_close_only_when_empty(s: Settlement, event: Event)
    ensures
        next(s, event).1 == Action::CloseTokenAccount ==> s.stage == Stage::Reloading && event
            == Event::Reloaded(0),
{
}

/// The token leaves the vault only as the first action of a settlement
/// without payment, or right after the payment was reported successful.
pub proof fn lemma_tokens_move_after_payment(s: Settlement, event: Event)
    ensures
        next(s, event).1 == Action::TransferTokens ==> (s.stage == Stage::Start && s.payment is None)
            || (s.stage == Stage::Paying && event == Event::Succeeded),
{
}

/// A failure reported for the payment, for a transfer whose outcome counts,
/// for the reload or for the close ends the settlement with that failure.
pub proof fn lemma_failure_fails(s: Settlement)
    requires
        s.stage == Stage::Paying || s.stage == Stage::Reloading || s.stage == Stage::Closing || (
        s.stage == Stage::Transferring && !s.transfer_result_ignored),
    ensures
        next(s, Event::Failed) == (Stage::Failed, Action::Fail),
{
}

proof fn lemma_never_back_to_start_or_paying_without_payment(s: Settlement, event: Event)
    ensures
        next(s, event).0 != Stage::Start,
        next(s, event).0 == Stage::Paying ==> next(s, event).1 == Action::TransferLamports,
{
}

proof fn lemma_run_first(s: Settlement, events: Seq<Event>)
    requires
        events.len() > 0,
    ensures
        run(s, events).len() == events.len(),
        run(s, events)[0] == next(s, events[0]).1,
        forall|i: int|
            0 < i < events.len() ==> #[trigger] run(s, events)[i] == run(
                at_stage(s, next(s, events[0]).0),
                events.drop_first(),
            )[i - 1],
{
    lemma_run_len(at_stage(s, next(s, events[0]).0), events.drop_first());
}

proof fn lemma_run_len(s: Settlement, events: Seq<Event>)
    ensures
        run(s, events).len() == events.len(),
    decreases events.len(),
{
    if events.len() > 0 {
        lemma_run_len(at_stage(s, next(s, events[0]).0), events.drop_first());
    }
}

proof fn lemma_run_transfer_preceded(s: Settlement, events: Seq<Event>, i: int)
    requires
        0 <= i < events.len(),
        run(s, events)[i] == Action::TransferTokens,
    ensures
        i == 0 ==> (s.stage == Stage::Start && s.payment is None) || (s.stage == Stage::Paying
            && events[0] == Event::Succeeded),
        i > 0 ==> run(s, events)[i - 1] == Action::TransferLamports && events[i] == Event::Succeeded,
    decreases events.len(),
{
    lemma_run_first(s, events);
    let s1 = at_stage(s, next(s, events[0]).0);
    let rest = events.drop_first();
    if i == 0 {
        lemma_tokens_move_after_payment(s, events[0]);
    } else {
        lemma_run_transfer_preceded(s1, rest, i - 1);
        lemma_never_back_to_start_or_paying_without_payment(s, events[0]);
        if i > 1 {
            lemma_run_first(s1, rest);
            assert(run(s, events)[i - 1] == run(s1, rest)[i - 2]);
        }
    }
}

/// In every run of a settlement with a payment, the token leaves the vault
/// only in answer to a report that the payment, performed just before,
/// succeeded.
pub proof fn lemma_paid_before_delivery(s: Settlement, events: Seq<Event>, i: int)
    requires
        s.stage == Stage::Start,
        s.payment is Some,
        0 <= i < events.len(),
        run(s, events)[i] == Action::TransferTokens,
    ensures
        i > 0,
        run(s, events)[i - 1] == Action::TransferLamports,
        events[i] == Event::Succeeded,
{
    lemma_run_transfer_preceded(s, events, i);
}

/// A listing records its seller as the vault's owner: a purchase of that
/// listing is accepted only when it names the lister as seller, and its
/// settlement pays the listed price from the buyer to the lister.
pub proof fn lemma_buyer_pays_lister(
    listing: ListNFT,
    mint: Key,
    first_creator: Key,
    price: u64,
    purchase: BuyNFT,
    s: Settlement,
    bump: u8,
)
    requires
        purchase.seller_vault == listed_vault(listing, mint, first_creator, price),
        buy_accepted(purchase, mint@),
        buy_settlement(s, purchase, mint@, bump),
    ensures
        purchase.seller == listing.seller,
        s.payment == Some(LamportTransfer { from: purchase.buyer, to: listing.seller, lamports: price }),
{
    lemma_view_injective(purchase.seller, listing.seller);
}

/// Only the lister can withdraw a listing: a withdrawal of it is accepted
/// only when it names the lister as seller.
pub proof fn lemma_only_lister_unlists(
    listing: ListNFT,
    mint: Key,
    first_creator: Key,
    price: u64,
    withdrawal: UnlistNFT,
)
    requires
        withdrawal.seller_vault == listed_vault(listing, mint, first_creator, price),
        unlist_accepted(withdrawal, mint@),
    ensures
        withdrawal.seller == listing.seller,
{
    lemma_view_injective(withdrawal.seller, listing.seller);
}

/// A listing record fills its account space exactly, starts with its
/// discriminator, and is the only record with its account data (so reading
/// back written data gives the record that was written).
pub proof fn lemma_seller_vault_layout(v: SellerVault, w: SellerVault)
    ensures
        v.spec_serialized().len() == SellerVault::LEN,
        v.spec_serialized().take(8) == SellerVault::spec_discriminator(),
        w.spec_serialized() == v.spec_serialized() ==> w == v,
{
    vstd::bytes::lemma_auto_spec_u64_to_from_le_bytes();
    let sv = v.spec_serialized();
    assert(sv.take(8) =~= SellerVault::spec_discriminator());
    if w.spec_serialized() == sv {
        let sw = w.spec_serialized();
        assert(sw.subrange(8, 40) =~= w.owner@);
        assert(sv.subrange(8, 40) =~= v.owner@);
        assert(sw.subrange(40, 72) =~= w.mint_address@);
        assert(sv.subrange(40, 72) =~= v.mint_address@);
        assert(sw.subrange(72, 80) =~= spec_u64_to_le_bytes(w.price));
        assert(sv.subrange(72, 80) =~= spec_u64_to_le_bytes(v.price));
        assert(sw.subrange(80, 112) =~= w.first_creator@);
        assert(sv.subrange(80, 112) =~= v.first_creator@);
        lemma_view_injective(w.owner, v.owner);
        lemma_view_injective(w.mint_address, v.mint_address);
        lemma_view_injective(w.first_creator, v.first_creator);
    }
}

/// A collection record whose name fits the length prefix starts with its
/// discriminator, is readable, and is the only record with that name and
/// first creator to have its account data; it fits the account space
/// exactly when its name takes at most 32 bytes.
pub proof fn lemma_collection_layout(c: WhitelistedCollection, d: WhitelistedCollection)
    requires
        c.name_bytes().len() <= u32::MAX,
    ensures
        c.spec_serialized().len() == 44 + c.name_bytes().len(),
        c.spec_serialized().take(8) == WhitelistedCollection::spec_discriminator(),
        WhitelistedCollection::readable(c.spec_serialized()),
        announced_name_len(c.spec_serialized()) == c.name_bytes().len(),
        c.spec_serialized().len() <= WhitelistedCollection::LEN <==> c.name_bytes().len() <= 32,
        d.spec_serialized() == c.spec_serialized() ==> d.first_creator == c.first_creator
            && d.collection_name@ == c.collection_name@,
{
    vstd::bytes::lemma_auto_spec_u32_to_from_le_bytes();
    vstd::utf8::encode_utf8_valid_utf8(c.collection_name@);
    let sc = c.spec_serialized();
    let n: int = c.name_bytes().len() as int;
    assert(sc.take(8) =~= WhitelistedCollection::spec_discriminator());
    assert(sc.subrange(40, 44) =~= spec_u32_to_le_bytes(n as u32));
    assert(sc.subrange(44, 44 + n) =~= c.name_bytes());
    if d.spec_serialized() == sc {
        let sd = d.spec_serialized();
        assert(spec_u32_to_le_bytes(d.name_bytes().len() as u32).len() == 4);
        assert(d.name_bytes().len() == n);
        assert(sd.subrange(8, 40) =~= d.first_creator@);
        assert(sc.subrange(8, 40) =~= c.first_creator@);
        assert(sd.subrange(44, 44 + n) =~= d.name_bytes());
        lemma_view_injective(d.first_creator, c.first_creator);
        vstd::utf8::encode_utf8_decode_utf8(c.collection_name@);
        vstd::utf8::encode_utf8_decode_utf8(d.collection_name@);
    }
}

/// A withdrawal of a listing undoes the listing's token move: it takes the
/// token from the very account the listing deposited it into (the vault's
/// associated token account for the mint) and, when the listing took the
/// token from the seller's associated token account, returns it there.
pub proof fn lemma_withdrawal_reverses_listing(
    listing: ListNFT,
    mint: Key,
    first_creator: Key,
    price: u64,
    withdrawal: UnlistNFT,
    s: Settlement,
    bump: u8,
)
    requires
        list_outcome(listing, mint@) is Ok,
        withdrawal.seller_vault == listed_vault(listing, mint, first_creator, price),
        withdrawal.seller_vault_key == listing.seller_vault_key,
        unlist_accepted(withdrawal, mint@),
        unlist_settlement(s, withdrawal, mint@, bump),
    ensures
        s.transfer.from == listing.seller_vault_nft_token_account,
        s.transfer.amount == 1,
        spec_associated_token_address(listing.seller@, mint@) == Some(listing.seller_nft_token_account@)
            ==> s.transfer.to == listing.seller_nft_token_account,
{
    lemma_view_injective(withdrawal.seller, listing.seller);
    lemma_view_injective(withdrawal.seller_vault_nft_token_account, listing.seller_vault_nft_token_account);
    if spec_associated_token_address(listing.seller@, mint@) == Some(listing.seller_nft_token_account@) {
        lemma_view_injective(withdrawal.seller_nft_token_account, listing.seller_nft_token_account);
    }
}

/// A purchase of a listing takes the token from the very account the
/// listing deposited it into.
pub proof fn lemma_purchase_takes_listed_token(
    listing: ListNFT,
    mint: Key,
    first_creator: Key,
    price: u64,
    purchase: BuyNFT,
    s: Settlement,
    bump: u8,
)
    requires
        list_outcome(listing, mint@) is Ok,
        purchase.seller_vault == listed_vault(listing, mint, first_creator, price),
        purchase.seller_vault_key == listing.seller_vault_key,
        buy_accepted(purchase, mint@),
        buy_settlement(s, purchase, mint@, bump),
    ensures
        s.transfer.from == listing.seller_vault_nft_token_account,
        s.transfer.amount == 1,
{
    lemma_view_injective(purchase.seller_vault_nft_token_account, listing.seller_vault_nft_token_account);
}

/// The ASCII bytes of `seller_vault`, with which the vault's signer seeds
/// begin.
pub open spec fn seller_vault_bytes() -> Seq<u8> {
    seq![115u8, 101, 108, 108, 101, 114, 95, 118, 97, 117, 108, 116]
}

/// A purchase is accepted exactly when the named seller is the vault's
/// owner, the vault's token account is the associated token account of the
/// vault for the mint, and the buyer's token account is the associated token
/// account of the buyer for the mint.  Every refusal is the marketplace's
/// error, or the abort of a failed address derivation.
pub proof fn lemma_purchase_acceptance(ctx: BuyNFT, mint: Seq<u8>)
    ensures
        buy_accepted(ctx, mint) <==> {
            &&& ctx.seller_vault.owner@ == ctx.seller@
            &&& spec_associated_token_address(ctx.seller_vault_key@, mint) == Some(
                ctx.seller_vault_nft_token_account@,
            )
            &&& spec_associated_token_address(ctx.buyer@, mint) == Some(ctx.buyer_nft_token_account@)
        },
        ctx.seller_vault.owner@ != ctx.seller@ ==> buy_outcome(ctx, mint) == Err::<(), HandlerError>(
            refused(),
        ),
        buy_outcome(ctx, mint) matches Err(e) ==> e == refused() || e == HandlerError::Aborted,
        buy_outcome(ctx, mint) == Err::<(), HandlerError>(HandlerError::Aborted) ==> (
        spec_associated_token_address(ctx.seller_vault_key@, mint) is None
            || spec_associated_token_address(ctx.buyer@, mint) is None),
{
}

/// A withdrawal is accepted exactly when the named seller is the vault's
/// owner and the seller's and the vault's token accounts are their associated
/// token accounts for the mint.
pub proof fn lemma_withdrawal_acceptance(ctx: UnlistNFT, mint: Seq<u8>)
    ensures
        unlist_accepted(ctx, mint) <==> {
            &&& ctx.seller_vault.owner@ == ctx.seller@
            &&& spec_associated_token_address(ctx.seller@, mint) == Some(ctx.seller_nft_token_account@)
            &&& spec_associated_token_address(ctx.seller_vault_key@, mint) == Some(
                ctx.seller_vault_nft_token_account@,
            )
        },
        ctx.seller_vault.owner@ != ctx.seller@ ==> unlist_outcome(ctx, mint) == Err::<(), HandlerError>(
            refused(),
        ),
        unlist_outcome(ctx, mint) matches Err(e) ==> e == refused() || e == HandlerError::Aborted,
        unlist_outcome(ctx, mint) == Err::<(), HandlerError>(HandlerError::Aborted) ==> (
        spec_associated_token_address(ctx.seller@, mint) is None
            || spec_associated_token_address(ctx.seller_vault_key@, mint) is None),
{
}

/// What the settlement of a purchase does: the buyer pays the vault's price
/// to the seller; one token moves from the vault's token account to the
/// buyer's, signed by the vault with the seeds `[seller_vault, mint, seller,
/// [bump]]`; the account reloaded and closed is the vault's token account the
/// token came from, and its rent goes to the seller.
pub proof fn lemma_purchase_settlement_contents(s: Settlement, ctx: BuyNFT, mint: Seq<u8>, bump: u8)
    requires
        buy_settlement(s, ctx, mint, bump),
    ensures
        s.stage == Stage::Start,
        s.payment == Some(
            LamportTransfer { from: ctx.buyer, to: ctx.seller, lamports: ctx.seller_vault.price },
        ),
        s.transfer.from == ctx.seller_vault_nft_token_account,
        s.transfer.to == ctx.buyer_nft_token_account,
        s.transfer.authority == ctx.seller_vault_key,
        s.transfer.amount == 1,
        seeds_view(s.transfer.signer_seeds@) == seq![seller_vault_bytes(), mint, ctx.seller@, seq![bump]],
        !s.transfer_result_ignored,
        s.close.account == s.transfer.from,
        s.close.destination == ctx.seller,
        s.close.authority == ctx.seller_vault_key,
        seeds_view(s.close.signer_seeds@) == seeds_view(s.transfer.signer_seeds@),
{
    assert(seq![seller_vault_bytes(), mint, ctx.seller@, seq![bump]] =~= crate::instructions::seeds::seller_vault_signer_seeds(mint, ctx.seller@, bump));
}

/// What the settlement of a withdrawal does: no payment; one token moves from
/// the vault's token account back to the seller's, signed by the vault with
/// the seeds `[seller_vault, mint, seller, [bump]]`, whatever the transfer's
/// outcome; the account reloaded and closed is the vault's token account the
/// token came from, and its rent goes to the seller.
pub proof fn lemma_withdrawal_settlement_contents(
    s: Settlement,
    ctx: UnlistNFT,
    mint: Seq<u8>,
    bump: u8,
)
    requires
        unlist_settlement(s, ctx, mint, bump),
    ensures
        s.stage == Stage::Start,
        s.payment is None,
        s.transfer.from == ctx.seller_vault_nft_token_account,
        s.transfer.to == ctx.seller_nft_token_account,
        s.transfer.authority == ctx.seller_vault_key,
        s.transfer.amount == 1,
        seeds_view(s.transfer.signer_seeds@) == seq![seller_vault_bytes(), mint, ctx.seller@, seq![bump]],
        s.transfer_result_ignored,
        s.close.account == s.transfer.from,
        s.close.destination == ctx.seller,
        s.close.authority == ctx.seller_vault_key,
        seeds_view(s.close.signer_seeds@) == seeds_view(s.transfer.signer_seeds@),
{
    assert(seq![seller_vault_bytes(), mint, ctx.seller@, seq![bump]] =~= crate::instructions::seeds::seller_vault_signer_seeds(mint, ctx.seller@, bump));
}

/// The creator check accepts exactly a read that lists creators whose first
/// is verified and is the whitelisted first creator; an unreadable account
/// is reported with its code, a read without creators aborts, and every
/// other refusal is the marketplace's error.
pub proof fn lemma_first_creator_check(
    read: Result<Option<Seq<(Seq<u8>, bool, u8)>>, u64>,
    whitelisted: Seq<u8>,
)
    ensures
        creator_outcome(read, whitelisted) is Ok <==> match read {
            Ok(Some(creators)) => creators.len() > 0 && creators[0].1 && creators[0].0 == whitelisted,
            _ => false,
        },
        read matches Err(code) ==> creator_outcome(read, whitelisted) == Err::<(), HandlerError>(
            HandlerError::Metadata(code),
        ),
        (read matches Ok(Some(creators)) && creators.len() > 0) ==> (creator_outcome(read, whitelisted)
            is Ok || creator_outcome(read, whitelisted) == Err::<(), HandlerError>(refused())),
        (read == Ok::<Option<Seq<(Seq<u8>, bool, u8)>>, u64>(None) || read == Ok::<
            Option<Seq<(Seq<u8>, bool, u8)>>,
            u64,
        >(Some(Seq::empty()))) ==> creator_outcome(read, whitelisted) == Err::<(), HandlerError>(
            HandlerError::Aborted,
        ),
{
}

/// A listing is accepted exactly when the metadata account is owned by the
/// named metadata program and sits at the address derived from `[metadata,
/// program, the token's mint]`, holds data whose read lists a verified first
/// creator equal to the whitelisted first creator, and the vault's token
/// account is the vault's associated token account for the listed mint.
pub proof fn lemma_listing_acceptance(ctx: ListNFT, mint: Seq<u8>)
    ensures
        list_outcome(ctx, mint) is Ok <==> {
            &&& ctx.metadata_account.owner@ == ctx.token_metadata_program@
            &&& spec_try_find_program_address(
                metadata_seeds(ctx.token_metadata_program@, ctx.seller_nft_token_account_mint@),
                ctx.token_metadata_program@,
            ) matches Some((address, _bump)) && address == ctx.metadata_account.key@
            &&& ctx.metadata_account.data@.len() > 0
            &&& spec_metadata_creators(
                ctx.metadata_account.key@,
                ctx.metadata_account.owner@,
                ctx.metadata_account.data@,
            ) matches Ok(Some(creators)) && creators.len() > 0 && creators[0].1 && creators[0].0
                == ctx.whitelisted_collection.first_creator@
            &&& spec_associated_token_address(ctx.seller_vault_key@, mint) == Some(
                ctx.seller_vault_nft_token_account@,
            )
        },
{
    lemma_first_creator_check(
        spec_metadata_creators(
            ctx.metadata_account.key@,
            ctx.metadata_account.owner@,
            ctx.metadata_account.data@,
        ),
        ctx.whitelisted_collection.first_creator@,
    );
}

/// The record a listing writes names the seller as owner, the listed mint,
/// the price and the first creator given with the listing.
pub proof fn lemma_listing_records(ctx: ListNFT, mint: Key, first_creator: Key, price: u64)
    ensures
        listed_vault(ctx, mint, first_creator, price).owner == ctx.seller,
        listed_vault(ctx, mint, first_creator, price).mint_address == mint,
        listed_vault(ctx, mint, first_creator, price).price == price,
        listed_vault(ctx, mint, first_creator, price).first_creator == first_creator,
{
}

/// How a settlement advances on good news: a successful payment leads to the
/// token transfer, a successful (or disregarded) transfer to the reload, a
/// reload that finds the account empty to its close and one that finds
/// tokens left to success, and a successful close to success.
pub proof fn lemma_settlement_progress(s: Settlement, amount: u64)
    ensures
        s.stage == Stage::Start && s.payment is Some ==> next(s, Event::Proceed) == (
        Stage::Paying, Action::TransferLamports),
        s.stage == Stage::Start && s.payment is None ==> next(s, Event::Proceed) == (
        Stage::Transferring, Action::TransferTokens),
        s.stage == Stage::Paying ==> next(s, Event::Succeeded) == (Stage::Transferring, Action::TransferTokens),
        s.stage == Stage::Transferring ==> next(s, Event::Succeeded) == (
        Stage::Reloading, Action::ReloadTokenAccount),
        s.stage == Stage::Transferring && s.transfer_result_ignored ==> next(s, Event::Failed) == (
        Stage::Reloading, Action::ReloadTokenAccount),
        s.stage == Stage::Reloading && amount == 0 ==> next(s, Event::Reloaded(amount)) == (
        Stage::Closing, Action::CloseTokenAccount),
        s.stage == Stage::Reloading && amount > 0 ==> next(s, Event::Reloaded(amount)) == (
        Stage::Finished, Action::Finish),
        s.stage == Stage::Closing ==> next(s, Event::Succeeded) == (Stage::Finished, Action::Finish),
{
}

/// A settlement whose every action succeeds ends in success: a purchase pays,
/// transfers, reloads, closes the emptied account and finishes; a withdrawal
/// does the same without the payment; when tokens are left in the vault's
/// account it finishes without closing it.
pub proof fn lemma_successful_runs_finish(s: Settlement, amount: u64)
    requires
        s.stage == Stage::Start,
        amount > 0,
    ensures
        s.payment is Some ==> run(
            s,
            seq![Event::Proceed, Event::Succeeded, Event::Succeeded, Event::Reloaded(0), Event::Succeeded],
        ) == seq![
            Action::TransferLamports,
            Action::TransferTokens,
            Action::ReloadTokenAccount,
            Action::CloseTokenAccount,
            Action::Finish,
        ],
        s.payment is None ==> run(
            s,
            seq![Event::Proceed, Event::Succeeded, Event::Reloaded(0), Event::Succeeded],
        ) == seq![
            Action::TransferTokens,
            Action::ReloadTokenAccount,
            Action::CloseTokenAccount,
            Action::Finish,
        ],
        s.payment is None ==> run(s, seq![Event::Proceed, Event::Succeeded, Event::Reloaded(amount)])
            == seq![Action::TransferTokens, Action::ReloadTokenAccount, Action::Finish],
{
    reveal_with_fuel(run, 6);
    let e5 = seq![Event::Proceed, Event::Succeeded, Event::Succeeded, Event::Reloaded(0), Event::Succeeded];
    let e4 = seq![Event::Proceed, Event::Succeeded, Event::Reloaded(0), Event::Succeeded];
    let e3 = seq![Event::Proceed, Event::Succeeded, Event::Reloaded(amount)];
    assert(e5.drop_first() =~= seq![Event::Succeeded, Event::Succeeded, Event::Reloaded(0), Event::Succeeded]);
    assert(e5.drop_first().drop_first() =~= seq![Event::Succeeded, Event::Reloaded(0), Event::Succeeded]);
    assert(e4.drop_first() =~= seq![Event::Succeeded, Event::Reloaded(0), Event::Succeeded]);
    assert(e4.drop_first().drop_first() =~= seq![Event::Reloaded(0), Event::Succeeded]);
    assert(e5.drop_first().drop_first().drop_first() =~= seq![Event::Reloaded(0), Event::Succeeded]);
    assert(seq![Event::Reloaded(0), Event::Succeeded].drop_first() =~= seq![Event::Succeeded]);
    assert(seq![Event::Succeeded].drop_first() =~= Seq::<Event>::empty());
    assert(e3.drop_first() =~= seq![Event::Succeeded, Event::Reloaded(amount)]);
    assert(e3.drop_first().drop_first() =~= seq![Event::Reloaded(amount)]);
    assert(seq![Event::Reloaded(amount)].drop_first() =~= Seq::<Event>::empty());
    if s.payment is Some {
        assert(run(s, e5) =~= seq![
            Action::TransferLamports,
            Action::TransferTokens,
            Action::ReloadTokenAccount,
            Action::CloseTokenAccount,
            Action::Finish,
        ]);
    } else {
        assert(run(s, e4) =~= seq![
            Action::TransferTokens,
            Action::ReloadTokenAccount,
            Action::CloseTokenAccount,
            Action::Finish,
        ]);
        assert(run(s, e3) =~= seq![Action::TransferTokens, Action::ReloadTokenAccount, Action::Finish]);
    }
}

/// The seeds of a token-metadata record are the ASCII bytes of `metadata`,
/// the metadata program and the mint.
pub proof fn lemma_metadata_seeds(program: Seq<u8>, mint: Seq<u8>)
    ensures
        metadata_seeds(program, mint) == seq![seq![109u8, 101, 116, 97, 100, 97, 116, 97], program, mint],
{
    assert(metadata_seeds(program, mint) =~= seq![seq![109u8, 101, 116, 97, 100, 97, 116, 97], program, mint]);
}

/// A settlement waiting for the outcome of an action fails on any report
/// other than that action's success (a disregarded transfer aside).
pub proof fn lemma_unexpected_reports_fail(s: Settlement, event: Event)
    ensures
        s.stage == Stage::Paying && event != Event::Succeeded ==> next(s, event) == (Stage::Failed, Action::Fail),
        s.stage == Stage::Transferring && event != Event::Succeeded && !s.transfer_result_ignored
            ==> next(s, event) == (Stage::Failed, Action::Fail),
        s.stage == Stage::Reloading && !(event is Reloaded) ==> next(s, event) == (Stage::Failed, Action::Fail),
        s.stage == Stage::Closing && event != Event::Succeeded ==> next(s, event) == (Stage::Failed, Action::Fail),
{
}

/// Where each field of a listing record sits in its account data: owner at
/// bytes 8..40, mint at 40..72, the price little-endian at 72..80, the first
/// creator at 80..112.
pub proof fn lemma_seller_vault_fields(v: SellerVault)
    ensures
        v.spec_serialized().subrange(8, 40) == v.owner@,
        v.spec_serialized().subrange(40, 72) == v.mint_address@,
        v.spec_serialized().subrange(72, 80) == spec_u64_to_le_bytes(v.price),
        v.spec_serialized().subrange(80, 112) == v.first_creator@,
{
    vstd::bytes::lemma_auto_spec_u64_to_from_le_bytes();
    let sv = v.spec_serialized();
    assert(sv.subrange(8, 40) =~= v.owner@);
    assert(sv.subrange(40, 72) =~= v.mint_address@);
    assert(sv.subrange(72, 80) =~= spec_u64_to_le_bytes(v.price));
    assert(sv.subrange(80, 112) =~= v.first_creator@);
}

/// Where each field of a collection record sits in its account data: the
/// first creator at bytes 8..40, the name's byte length little-endian at
/// 40..44, the name's UTF-8 bytes after it.
pub proof fn lemma_collection_fields(c: WhitelistedCollection)
    requires
        c.name_bytes().len() <= u32::MAX,
    ensures
        c.spec_serialized().subrange(8, 40) == c.first_creator@,
        c.spec_serialized().subrange(40, 44) == spec_u32_to_le_bytes(encode_utf8(c.collection_name@).len() as u32),
        c.spec_serialized().subrange(44, c.spec_serialized().len() as int) == encode_utf8(c.collection_name@),
{
    vstd::bytes::lemma_auto_spec_u32_to_from_le_bytes();
    let sc = c.spec_serialized();
    assert(spec_u32_to_le_bytes(c.name_bytes().len() as u32).len() == 4);
    assert(sc.subrange(8, 40) =~= c.first_creator@);
    assert(sc.subrange(40, 44) =~= spec_u32_to_le_bytes(c.name_bytes().len() as u32));
    assert(sc.subrange(44, sc.len() as int) =~= c.name_bytes());
}

} // verus!
