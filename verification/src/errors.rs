use vstd::prelude::*;

verus! {

/// The program's own error: every refused request of the marketplace is
/// answered with this single variant.
#[derive(Debug, Clone, Copy, PartialEq, Eq)]
pub enum NFTMatketPlaceProgramError {
    UndefinedError,
}

/// Why an instruction is refused.
#[derive(Clone, Copy, Debug, PartialEq, Eq)]
pub enum HandlerError {
    /// One of the marketplace's own checks failed.
    MarketPlace(NFTMatketPlaceProgramError),
    /// The metadata account could not be read: the code of the program error.
    Metadata(u64),
    /// The instruction panics: an address could not be derived, or the
    /// metadata lists no creator.
    Aborted,
}

/// The refusal of the marketplace's own checks.
pub open spec fn refused() -> HandlerError {
    HandlerError::MarketPlace(NFTMatketPlaceProgramError::UndefinedError)
}

} // verus!
