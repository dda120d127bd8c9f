//! The List Manager: list records and their reference sequences.
//!
//! A list record is created once with a fixed capacity and is never
//! deleted; the add, cancel and finish operations only insert and remove
//! item references. The number of references never exceeds the capacity.

use vstd::prelude::*;

use crate::addressing::Addr;
use crate::addressing::addr_eq;
use crate::errors::ErrorCode;

verus! {

/// A named, capacity-bounded collection of item references owned by one
/// identity.
#[derive(Clone, Debug)]
pub struct TodoList {
    /// The identity that created the list; never changes.
    pub list_owner: Addr,
    /// How many item references the list can hold; fixed at creation.
    pub capacity: u16,
    /// The bump seed of the list's derived address.
    pub bump: u8,
    /// The full human-readable name; only its first 32 bytes feed the
    /// address derivation.
    pub name: Vec<u8>,
    /// The ordered references to the contained item records.
    pub lines: Vec<Addr>,
}

/// Holds of every address other than `a`.
pub open spec fn other_than(a: Addr) -> spec_fn(Addr) -> bool {
    |k: Addr| k != a
}

/// The reference sequence `s` with every occurrence of `a` removed, the
/// order of the rest kept.
pub open spec fn remove_addr(s: Seq<Addr>, a: Addr) -> Seq<Addr> {
    s.filter(other_than(a))
}

/// The fields of a list that no operation after creation ever changes:
/// owner, capacity, bump and name.
pub open spec fn same_meta(a: TodoList, b: TodoList) -> bool {
    &&& a.list_owner == b.list_owner
    &&& a.capacity == b.capacity
    &&& a.bump == b.bump
    &&& a.name == b.name
}

proof fn lemma_remove_addr_step(s: Seq<Addr>, i: int, a: Addr)
    requires
        0 <= i < s.len(),
    ensures
        remove_addr(s.subrange(0, i + 1), a) == if s[i] == a {
            remove_addr(s.subrange(0, i), a)
        } else {
            remove_addr(s.subrange(0, i), a).push(s[i])
        },
{
    reveal(Seq::filter);
    assert(s.subrange(0, i + 1).drop_last() =~= s.subrange(0, i));
    assert(s.subrange(0, i + 1).last() == s[i]);
}

impl TodoList {
    /// The capacity bound: the number of contained item references never
    /// exceeds the fixed capacity. Every operation requires and
    /// re-establishes this.
    pub open spec fn wf(self) -> bool {
        self.lines@.len() <= self.capacity as nat
    }

    /// The fixed size of a list record's persisted layout: an 8-byte
    /// metadata header, the owner address, the bump, the capacity, the
    /// length-prefixed name, and room for `capacity` 32-byte item
    /// references. Fixed at creation; a list is never resized.
    pub fn space(name: &Vec<u8>, capacity: u16) -> (r: usize)
        requires
            51 + name@.len() + 32 * (capacity as nat) <= usize::MAX,
        ensures
            r == 51 + name@.len() + 32 * (capacity as nat),
    {
        8 + 32 + 1 + 2 + 4 + name.len() + 4 + (capacity as usize) * 32
    }

    /// Append an item reference. Fails with ListFull, leaving the list
    /// unchanged, exactly when the list is at capacity.
    pub fn insert_reference(&mut self, item_address: Addr) -> (r: Result<(), ErrorCode>)
        requires
            old(self).wf(),
        ensures
            final(self).wf(),
            r is Ok <==> old(self).lines@.len() < old(self).capacity as nat,
            r matches Err(e) ==> e == ErrorCode::ListFull && *final(self) == *old(self),
            r is Ok ==> final(self).lines@ == old(self).lines@.push(item_address) && same_meta(
                *final(self),
                *old(self),
            ),
    {
        if self.lines.len() < self.capacity as usize {
            self.lines.push(item_address);
            Ok(())
        } else {
            Err(ErrorCode::ListFull)
        }
    }

    /// Remove every reference equal to `item_address`, keeping the order of
    /// the rest. Callers confirm membership via `contains` beforehand.
    pub fn remove_reference(&mut self, item_address: Addr)
        requires
            old(self).wf(),
        ensures
            final(self).wf(),
            same_meta(*final(self), *old(self)),
            final(self).lines@ == remove_addr(old(self).lines@, item_address),
    {
        let ghost orig: Seq<Addr> = self.lines@;
        let mut kept: Vec<Addr> = Vec::new();
        let mut i: usize = 0;
        proof {
            assert(orig.subrange(0, 0) =~= Seq::<Addr>::empty());
            reveal(Seq::filter);
        }
        while i < self.lines.len()
            invariant
                i <= self.lines@.len(),
                self.lines@ == orig,
                self.capacity == old(self).capacity,
                kept@ == remove_addr(orig.subrange(0, i as int), item_address),
                kept@.len() <= i,
            decreases self.lines@.len() - i,
        {
            let a = self.lines[i];
            if !addr_eq(&a, &item_address) {
                kept.push(a);
            }
            proof {
                lemma_remove_addr_step(orig, i as int, item_address);
            }
            i += 1;
        }
        proof {
            assert(orig.subrange(0, orig.len() as int) =~= orig);
        }
        self.lines = kept;
    }

    /// Membership test: is `item_address` among the list's references?
    /// Cancel and finish use this to reject an item record that is not
    /// actually linked to the named list.
    pub fn contains(&self, item_address: Addr) -> (r: bool)
        ensures
            r == self.lines@.contains(item_address),
    {
        let mut i: usize = 0;
        while i < self.lines.len()
            invariant
                i <= self.lines@.len(),
                forall|j: int| 0 <= j < i ==> self.lines@[j] != item_address,
            decreases self.lines@.len() - i,
        {
            if addr_eq(&self.lines[i], &item_address) {
                proof {
                    assert(self.lines@[i as int] == item_address);
                }
                return true;
            }
            i += 1;
        }
        false
    }
}

/// Create a new list record for `user`: no items, owner set to the caller,
/// capacity fixed at the given value for good. The storage substrate
/// enforces that no list already exists at the derived address.
pub fn new_list(user: Addr, name: Vec<u8>, capacity: u16, account_bump: u8) -> (list: TodoList)
    ensures
        list.list_owner == user,
        list.name@ == name@,
        list.capacity == capacity,
        list.bump == account_bump,
        list.lines@.len() == 0,
        list.wf(),
{
    TodoList { list_owner: user, capacity, bump: account_bump, name, lines: Vec::new() }
}

} // verus!
