use vstd::prelude::*;

verus! {

/// Why an instruction was rejected. Every rejection leaves all records as
/// they were before the instruction ran.
#[derive(Clone, Copy, Debug, PartialEq, Eq, Structural)]
pub enum CustomError {
    /// A text field is empty or longer than its bound.
    InvalidInput,
    /// The caller lacks the authority or standing the instruction needs.
    Unauthorized,
    /// A record with the same derived address exists already.
    AlreadyExists,
    /// No record lives at the address the instruction names.
    NotFound,
    /// The listing was sold or retired; it cannot be bought.
    ListingInactive,
    /// The listing is still for sale; it cannot be disputed yet.
    ListingStillActive,
    /// The named seller is not the listing's owner.
    AuthorizationMismatch,
    /// The dispute was resolved already.
    DisputeAlreadyResolved,
    /// An amount does not fit in 64 bits.
    ArithmeticOverflow,
    /// An amount would drop below zero.
    ArithmeticUnderflow,
    /// The buyer could not pay a leg of a purchase.
    InsufficientFunds,
}

} // verus!
