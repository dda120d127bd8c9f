//! The typed rejections of the core operations.
//!
//! Every failure is a synchronous, typed rejection of the single requested
//! operation; no partial effect is observable. None is retried: callers must
//! resubmit with corrected inputs.

use vstd::prelude::*;

verus! {

/// Why an operation was rejected: a capacity violation, an economic
/// precondition violation, an authorization violation, or a
/// referential-integrity violation.
#[derive(Clone, Copy, Debug, PartialEq, Eq, Structural)]
pub enum ErrorCode {
    /// The list already holds as many item references as its capacity.
    ListFull,
    /// The requested bounty is below the baseline existence deposit the
    /// item record already holds.
    BountyTooSmall,
    /// Only the list owner or the item creator may cancel an item.
    CancelPermissions,
    /// Only the list owner or the item creator may finish an item.
    FinishPermissions,
    /// The item is not referenced by the named list.
    ItemNotFound,
    /// The supplied list reference does not match the address derived from
    /// the claimed owner and name.
    WrongListOwner,
    /// The supplied creator identity does not match the creator stored in
    /// the item.
    WrongItemCreator,
}

impl ErrorCode {
    /// A human-readable description of the rejection.
    pub fn message(&self) -> (r: &'static str)
        ensures
            *self == ErrorCode::ListFull ==> r@ == "This list is full"@,
            *self == ErrorCode::BountyTooSmall ==> r@
                == "Bounty must be enough to mark account rent-exempt"@,
            *self == ErrorCode::CancelPermissions ==> r@
                == "Only the list owner or item creator may cancel an item"@,
            *self == ErrorCode::FinishPermissions ==> r@
                == "Only the list owner or item creator may finish an item"@,
            *self == ErrorCode::ItemNotFound ==> r@ == "Item does not belong to this todo list"@,
            *self == ErrorCode::WrongListOwner ==> r@
                == "Specified list owner does not match the pubkey in the list"@,
            *self == ErrorCode::WrongItemCreator ==> r@
                == "Specified item creator does not match the pubkey in the item"@,
    {
        match self {
            ErrorCode::ListFull => "This list is full",
            ErrorCode::BountyTooSmall => "Bounty must be enough to mark account rent-exempt",
            ErrorCode::CancelPermissions => "Only the list owner or item creator may cancel an item",
            ErrorCode::FinishPermissions => "Only the list owner or item creator may finish an item",
            ErrorCode::ItemNotFound => "Item does not belong to this todo list",
            ErrorCode::WrongListOwner => "Specified list owner does not match the pubkey in the list",
            ErrorCode::WrongItemCreator => "Specified item creator does not match the pubkey in the item",
        }
    }
}

} // verus!
