//! The Item/Escrow Engine: item records, bounty custody, and the
//! authorization rules of the cancel and finish paths.
//!
//! An item is created atomically with its list-reference insertion and is
//! destroyed by cancel, or by finish once both consent flags are true. Its
//! full custodied balance goes to exactly one party exactly once, at the
//! moment of destruction: to the stored creator on cancel, to the list
//! owner on finish.

use vstd::prelude::*;

use crate::addressing::Addr;
use crate::addressing::addr_eq;
use crate::errors::ErrorCode;
use crate::list::TodoList;
use crate::list::remove_addr;
use crate::list::same_meta;

verus! {

/// A task record with a custodied bounty, created by some identity and
/// tracked within exactly one list while it exists.
#[derive(Clone, Debug)]
pub struct ListItem {
    /// The identity that added the item; never changes.
    pub creator: Addr,
    /// The creator's consent to closing the item as finished.
    pub creator_finished: bool,
    /// The list owner's consent to closing the item as finished.
    pub list_owner_finished: bool,
    /// The human-readable task name.
    pub name: Vec<u8>,
    /// The custodied balance, in lamports: the baseline existence deposit
    /// plus whatever the add operation transferred in. Released in full to
    /// exactly one party when the record is destroyed.
    pub balance: u64,
}

/// Where custodied funds go when an item record is destroyed: `amount`
/// lamports to `to`.
#[derive(Clone, Copy, Debug)]
pub struct Payout {
    /// The recipient of the released funds.
    pub to: Addr,
    /// The full custodied balance of the destroyed item.
    pub amount: u64,
}

/// Authorization to close an item: the caller is the list owner or the
/// item's stored creator. Cancel and finish share this rule.
pub open spec fn is_authorized(list_owner: Addr, creator: Addr, user: Addr) -> bool {
    user == list_owner || user == creator
}

/// One finish confirmation applied to the two consent flags: the creator's
/// flag is set when the caller is the creator, the owner's when the caller
/// is the owner (both, when the two are the same identity); a set flag is
/// never cleared.
pub open spec fn finish_flags(
    creator_finished: bool,
    owner_finished: bool,
    is_creator: bool,
    is_owner: bool,
) -> (bool, bool) {
    (creator_finished || is_creator, owner_finished || is_owner)
}

impl ListItem {
    /// The fixed size of an item record's persisted layout: an 8-byte
    /// metadata header, the creator address, the two consent flags, and
    /// the length-prefixed name.
    pub fn space(name: &Vec<u8>) -> (r: usize)
        requires
            46 + name@.len() <= usize::MAX,
        ensures
            r == 46 + name@.len(),
    {
        8 + 32 + 1 + 1 + 4 + name.len()
    }
}

/// Shared finalize step of cancel and finish: drop the item's reference
/// from the list and direct the destroyed item's full custodied balance to
/// `recipient`.
fn close_item(list: &mut TodoList, item_address: Addr, recipient: Addr, amount: u64) -> (p: Payout)
    requires
        old(list).wf(),
    ensures
        final(list).wf(),
        same_meta(*final(list), *old(list)),
        final(list).lines@ == remove_addr(old(list).lines@, item_address),
        p.to == recipient,
        p.amount == amount,
{
    list.remove_reference(item_address);
    Payout { to: recipient, amount }
}

/// Add an item to `list`: a fresh record with both consent flags clear,
/// registered in the list, with `bounty` taken into custody.
///
/// The item record's allocation already holds `account_lamports`, the
/// baseline existence deposit; the second component of the result is the
/// gap `bounty - account_lamports` that the caller must additionally move
/// from the creator into the item's custody (nothing moves when it is
/// zero). Fails with ListFull when the list is at capacity, else with
/// BountyTooSmall when the bounty is below the deposit already held; on
/// failure the list is unchanged and no record is created.
pub fn add(
    list: &mut TodoList,
    item_address: Addr,
    creator: Addr,
    item_name: Vec<u8>,
    bounty: u64,
    account_lamports: u64,
) -> (r: Result<(ListItem, u64), ErrorCode>)
    requires
        old(list).wf(),
    ensures
        final(list).wf(),
        r is Err ==> *final(list) == *old(list),
        (r matches Err(e) && e == ErrorCode::ListFull) <==> old(list).lines@.len() == old(
            list,
        ).capacity as nat,
        (r matches Err(e) && e == ErrorCode::BountyTooSmall) <==> (old(list).lines@.len() < old(
            list,
        ).capacity as nat && bounty < account_lamports),
        r is Ok <==> (old(list).lines@.len() < old(list).capacity as nat && bounty
            >= account_lamports),
        r matches Ok(p) ==> ({
            &&& final(list).lines@ == old(list).lines@.push(item_address)
            &&& same_meta(*final(list), *old(list))
            &&& p.0.creator == creator
            &&& p.0.name@ == item_name@
            &&& p.0.creator_finished == false
            &&& p.0.list_owner_finished == false
            &&& p.0.balance == bounty
            &&& p.1 == bounty - account_lamports
        }),
{
    if list.lines.len() >= list.capacity as usize {
        return Err(ErrorCode::ListFull);
    }
    let transfer_amount = match bounty.checked_sub(account_lamports) {
        Some(t) => t,
        None => {
            return Err(ErrorCode::BountyTooSmall);
        },
    };
    match list.insert_reference(item_address) {
        Ok(u) => u,
        Err(_) => {
            return vstd::pervasive::unreached();
        },
    };
    let item = ListItem {
        creator,
        creator_finished: false,
        list_owner_finished: false,
        name: item_name,
        balance: bounty,
    };
    Ok((item, transfer_amount))
}

/// Cancel an item: the list owner or the item's stored creator may destroy
/// it at any time, whatever the consent flags say, and the full custodied
/// balance is returned to the stored creator.
///
/// `item_creator` is the caller-supplied recipient record; it must match
/// the creator stored in the item exactly, so funds cannot be misdirected.
/// The item must be referenced by `list`. On success the item record is
/// destroyed: its reference leaves the list and the payout says where its
/// balance goes.
pub fn cancel(
    list: &mut TodoList,
    item_address: Addr,
    item: &ListItem,
    item_creator: Addr,
    user: Addr,
) -> (r: Result<Payout, ErrorCode>)
    requires
        old(list).wf(),
    ensures
        final(list).wf(),
        r is Err ==> *final(list) == *old(list),
        (r matches Err(e) && e == ErrorCode::CancelPermissions) <==> !is_authorized(
            old(list).list_owner,
            item.creator,
            user,
        ),
        (r matches Err(e) && e == ErrorCode::WrongItemCreator) <==> (is_authorized(
            old(list).list_owner,
            item.creator,
            user,
        ) && item_creator != item.creator),
        (r matches Err(e) && e == ErrorCode::ItemNotFound) <==> (is_authorized(
            old(list).list_owner,
            item.creator,
            user,
        ) && item_creator == item.creator && !old(list).lines@.contains(item_address)),
        r is Ok <==> (is_authorized(old(list).list_owner, item.creator, user) && item_creator
            == item.creator && old(list).lines@.contains(item_address)),
        r matches Ok(p) ==> ({
            &&& p.to == item.creator
            &&& p.amount == item.balance
            &&& final(list).lines@ == remove_addr(old(list).lines@, item_address)
            &&& same_meta(*final(list), *old(list))
        }),
{
    let authorized = addr_eq(&user, &list.list_owner) || addr_eq(&user, &item.creator);
    if !authorized {
        return Err(ErrorCode::CancelPermissions);
    }
    if !addr_eq(&item_creator, &item.creator) {
        return Err(ErrorCode::WrongItemCreator);
    }
    if !list.contains(item_address) {
        return Err(ErrorCode::ItemNotFound);
    }
    Ok(close_item(list, item_address, item.creator, item.balance))
}

/// Record a finish confirmation on an item referenced by `list`.
///
/// The caller must be the item's creator or the list owner; the matching
/// consent flag is set (both, when creator and owner are the same
/// identity). Once both flags are true — in whatever order the two parties
/// confirmed — the item record is destroyed: its reference leaves the list
/// and its full custodied balance is released to the list owner. With only
/// one flag set the item persists, otherwise unchanged, awaiting the
/// second confirmation.
pub fn finish(list: &mut TodoList, item_address: Addr, item: &mut ListItem, user: Addr) -> (r:
    Result<Option<Payout>, ErrorCode>)
    requires
        old(list).wf(),
    ensures
        final(list).wf(),
        r is Err ==> *final(list) == *old(list) && *final(item) == *old(item),
        (r matches Err(e) && e == ErrorCode::ItemNotFound) <==> !old(list).lines@.contains(
            item_address,
        ),
        (r matches Err(e) && e == ErrorCode::FinishPermissions) <==> (old(list).lines@.contains(
            item_address,
        ) && !is_authorized(old(list).list_owner, old(item).creator, user)),
        r is Ok <==> (old(list).lines@.contains(item_address) && is_authorized(
            old(list).list_owner,
            old(item).creator,
            user,
        )),
        r is Ok ==> ({
            &&& (final(item).creator_finished, final(item).list_owner_finished) == finish_flags(
                old(item).creator_finished,
                old(item).list_owner_finished,
                user == old(item).creator,
                user == old(list).list_owner,
            )
            &&& final(item).creator == old(item).creator
            &&& final(item).name == old(item).name
            &&& final(item).balance == old(item).balance
        }),
        (r matches Ok(p) && p is Some) <==> (r is Ok && final(item).creator_finished
            && final(item).list_owner_finished),
        r matches Ok(Some(q)) ==> ({
            &&& q.to == old(list).list_owner
            &&& q.amount == old(item).balance
            &&& final(list).lines@ == remove_addr(old(list).lines@, item_address)
            &&& same_meta(*final(list), *old(list))
        }),
        r matches Ok(p) && p is None ==> *final(list) == *old(list),
{
    if !list.contains(item_address) {
        return Err(ErrorCode::ItemNotFound);
    }
    let is_item_creator = addr_eq(&user, &item.creator);
    let is_list_owner = addr_eq(&user, &list.list_owner);
    if !(is_item_creator || is_list_owner) {
        return Err(ErrorCode::FinishPermissions);
    }
    if is_item_creator {
        item.creator_finished = true;
    }
    if is_list_owner {
        item.list_owner_finished = true;
    }
    if item.creator_finished && item.list_owner_finished {
        let owner = list.list_owner;
        let p = close_item(list, item_address, owner, item.balance);
        Ok(Some(p))
    } else {
        Ok(None)
    }
}

} // verus!
