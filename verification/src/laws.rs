//! The library-wide laws, stated and proved once.
//!
//! Each proof function here is a statement about the spec functions the
//! operation contracts are written over, so what it proves holds of every
//! run of the operations themselves.

use vstd::prelude::*;

use crate::addressing::Addr;
use crate::addressing::derived_address;
use crate::addressing::list_tag_spec;
use crate::addressing::name_seed_spec;
use crate::escrow::finish_flags;
use crate::list::remove_addr;

verus! {

/// Removing a reference removes it wholly and touches nothing else: the
/// removed address is gone, every other address is kept exactly when it
/// was there, and the list can only shrink.
pub proof fn lemma_remove_addr_complete(s: Seq<Addr>, a: Addr)
    ensures
        !remove_addr(s, a).contains(a),
        forall|b: Addr| b != a ==> (remove_addr(s, a).contains(b) <==> s.contains(b)),
        remove_addr(s, a).len() <= s.len(),
{
    let pred = crate::list::other_than(a);
    let out = s.filter(pred);
    s.lemma_filter_len(pred);
    if out.contains(a) {
        let i = choose|i: int| 0 <= i < out.len() && out[i] == a;
        s.lemma_filter_pred(pred, i);
    }
    assert forall|b: Addr| b != a implies (out.contains(b) <==> s.contains(b)) by {
        if out.contains(b) {
            s.lemma_filter_contains_rev(pred, b);
        }
        if s.contains(b) {
            let i = choose|i: int| 0 <= i < s.len() && s[i] == b;
            s.lemma_filter_contains(pred, i);
        }
    }
}

/// Finish confirmations commute: the creator and the owner may confirm in
/// either order, and the flags — and with them the payout decision — come
/// out the same.
pub proof fn lemma_finish_order_irrelevant(
    creator_finished: bool,
    owner_finished: bool,
    first_is_creator: bool,
    first_is_owner: bool,
    second_is_creator: bool,
    second_is_owner: bool,
)
    ensures
        ({
            let a = finish_flags(creator_finished, owner_finished, first_is_creator, first_is_owner);
            let ab = finish_flags(a.0, a.1, second_is_creator, second_is_owner);
            let b = finish_flags(
                creator_finished,
                owner_finished,
                second_is_creator,
                second_is_owner,
            );
            let ba = finish_flags(b.0, b.1, first_is_creator, first_is_owner);
            ab == ba
        }),
{
}

/// A finish confirmation is idempotent: a party confirming twice leaves
/// the flags as one confirmation left them.
pub proof fn lemma_finish_idempotent(
    creator_finished: bool,
    owner_finished: bool,
    is_creator: bool,
    is_owner: bool,
)
    ensures
        ({
            let once = finish_flags(creator_finished, owner_finished, is_creator, is_owner);
            finish_flags(once.0, once.1, is_creator, is_owner) == once
        }),
{
}

/// A single finish confirmation on a fresh item, from a party who is not
/// both creator and owner at once, never completes the pair of flags — so
/// it never triggers payout.
pub proof fn lemma_single_finish_no_payout(is_creator: bool, is_owner: bool)
    requires
        !(is_creator && is_owner),
    ensures
        ({
            let f = finish_flags(false, false, is_creator, is_owner);
            !(f.0 && f.1)
        }),
{
}

/// Address derivation is a pure function of owner and name: the same
/// inputs always derive the same address, and two names that agree on
/// their first 32 bytes derive the same address. (That distinct truncated
/// names derive distinct addresses rests on the collision resistance of
/// the underlying hash and is assumed, not proved.)
pub proof fn lemma_derivation_deterministic(
    program_id: Seq<u8>,
    owner: Seq<u8>,
    name1: Seq<u8>,
    name2: Seq<u8>,
)
    requires
        name_seed_spec(name1) == name_seed_spec(name2),
    ensures
        derived_address(program_id, list_tag_spec(), owner, name_seed_spec(name1))
            == derived_address(program_id, list_tag_spec(), owner, name_seed_spec(name2)),
{
}

} // verus!
