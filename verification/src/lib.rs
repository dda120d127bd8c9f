//! A shared task-list ledger with per-item escrowed bounties.
//!
//! A list owner creates a bounded-capacity list; any participant may add an
//! item with an attached bounty held in custody; closing an item requires
//! the right authorization and releases the custodied funds to the correct
//! party. The core here is the set of state-transition rules over list and
//! item records: capacity enforcement, authorization checks, deterministic
//! record addressing, and the fund movements tied to state changes. The
//! persistent ledger that stores records and moves value, and the signature
//! layer that proves who issued a request, are outside services the caller
//! drives; every decision they depend on is made, and verified, here.

pub mod addressing;
pub mod errors;
pub mod escrow;
pub mod laws;
pub mod list;

pub use addressing::Addr;
pub use addressing::addr_eq;
pub use addressing::check_list_address;
pub use addressing::derive_list_address;
pub use addressing::name_seed;
pub use errors::ErrorCode;
pub use escrow::ListItem;
pub use escrow::Payout;
pub use escrow::cancel;
pub use escrow::finish;
pub use list::TodoList;
pub use list::new_list;
