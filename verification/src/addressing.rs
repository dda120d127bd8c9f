//! Record addressing: identities and derived record addresses.
//!
//! Every record on the ledger lives at a 32-byte address. A list's address
//! is a deterministic function of the program id, a fixed domain tag, the
//! owner's identity, and the list name truncated to 32 bytes, so any caller
//! can re-derive it offline and a presented list reference can be checked
//! against the claimed owner and name.

use vstd::prelude::*;

use crate::errors::ErrorCode;

use anchor_lang::solana_program::pubkey::Pubkey;

verus! {

broadcast use vstd::array::group_array_axioms;

/// A 32-byte ledger address: the identity of a party or the location of a
/// record.
#[verifier::ext_equal]
#[derive(Clone, Copy, Debug)]
pub struct Addr {
    pub bytes: [u8; 32],
}

impl View for Addr {
    type V = Seq<u8>;

    open spec fn view(&self) -> Seq<u8> {
        self.bytes@
    }
}

/// Byte-for-byte equality of two addresses.
pub fn addr_eq(a: &Addr, b: &Addr) -> (r: bool)
    ensures
        r == (a == b),
{
    let mut i: usize = 0;
    while i < 32
        invariant
            i <= 32,
            forall|j: int| 0 <= j < i ==> a.bytes@[j] == b.bytes@[j],
        decreases 32 - i,
    {
        if a.bytes[i] != b.bytes[i] {
            return false;
        }
        i += 1;
    }
    proof {
        assert(a.bytes =~= b.bytes);
        assert(*a =~= *b);
    }
    true
}

/// The part of a list name that feeds the address derivation: the name
/// truncated to its first 32 bytes. Truncation is a fixed policy: longer
/// names are kept in full on the record but do not extend address entropy.
pub open spec fn name_seed_spec(name: Seq<u8>) -> Seq<u8> {
    if name.len() > 32 {
        name.subrange(0, 32)
    } else {
        name
    }
}

/// Truncate a list name to the 32-byte seed that feeds the address
/// derivation.
pub fn name_seed(name: &Vec<u8>) -> (r: Vec<u8>)
    ensures
        r@ == name_seed_spec(name@),
{
    let n: usize = if name.len() > 32 {
        32
    } else {
        name.len()
    };
    let mut r: Vec<u8> = Vec::new();
    let mut i: usize = 0;
    while i < n
        invariant
            i <= n,
            n <= name@.len(),
            r@ == name@.subrange(0, i as int),
        decreases n - i,
    {
        let b = name[i];
        r.push(b);
        proof {
            assert(name@.subrange(0, i + 1 as int) =~= name@.subrange(0, i as int).push(
                name@[i as int],
            ));
        }
        i += 1;
    }
    proof {
        if name@.len() <= 32 {
            assert(name@.subrange(0, name@.len() as int) =~= name@);
        }
    }
    r
}

/// The fixed domain tag that prefixes every list-address derivation: the
/// bytes of "todolist".
pub open spec fn list_tag_spec() -> Seq<u8> {
    seq![116u8, 111u8, 100u8, 111u8, 108u8, 105u8, 115u8, 116u8]
}

/// The fixed domain tag, as bytes.
pub fn list_tag() -> (r: Vec<u8>)
    ensures
        r@ == list_tag_spec(),
{
    let mut r: Vec<u8> = Vec::new();
    r.push(116);
    r.push(111);
    r.push(100);
    r.push(111);
    r.push(108);
    r.push(105);
    r.push(115);
    r.push(116);
    proof {
        assert(r@ =~= list_tag_spec());
    }
    r
}

/// What the ledger's program-address derivation returns for the seed slices
/// `(tag, owner, seed)` under `program_id`: the derived address and bump,
/// or nothing in the statistically improbable case that no bump works.
pub uninterp spec fn derived_address(
    program_id: Seq<u8>,
    tag: Seq<u8>,
    owner: Seq<u8>,
    seed: Seq<u8>,
) -> Option<(Seq<u8>, u8)>;

/// The bytes-and-bump of a concrete derivation result.
pub open spec fn derivation_view(r: Option<(Addr, u8)>) -> Option<(Seq<u8>, u8)> {
    match r {
        Some(p) => Some((p.0@, p.1)),
        None => None,
    }
}

/// Relies on Pubkey::try_find_program_address: the derived address and bump
/// depend only on the seed slices and the program id; it returns None, and
/// never panics, when no viable bump exists or a seed is over-long.
#[verifier::external_body]
fn find_program_address(program_id: &Addr, tag: &Vec<u8>, owner: &Addr, seed: &Vec<u8>) -> (r:
    Option<(Addr, u8)>)
    ensures
        derivation_view(r) == derived_address(program_id@, tag@, owner@, seed@),
{
    let pid = Pubkey::new_from_array(program_id.bytes);
    let seeds: [&[u8]; 3] = [tag.as_slice(), &owner.bytes, seed.as_slice()];
    match Pubkey::try_find_program_address(&seeds, &pid) {
        Some((pk, bump)) => Some((Addr { bytes: pk.to_bytes() }, bump)),
        None => None,
    }
}

/// Derive the ledger address and bump of the list owned by `owner` under
/// `name`: the fixed domain tag, the owner identity, and the name truncated
/// to 32 bytes feed the derivation. The derivation is pure, so callers can
/// compute list addresses offline and re-derive them at will.
pub fn derive_list_address(program_id: &Addr, owner: &Addr, name: &Vec<u8>) -> (r: Option<
    (Addr, u8),
>)
    ensures
        derivation_view(r) == derived_address(
            program_id@,
            list_tag_spec(),
            owner@,
            name_seed_spec(name@),
        ),
{
    let tag = list_tag();
    let seed = name_seed(name);
    find_program_address(program_id, &tag, owner, &seed)
}

/// Validate a caller-supplied list reference against the claimed owner and
/// name: the reference must equal the address derived from them. On success
/// the derived bump is returned; any mismatch, or a failed derivation, is
/// rejected with WrongListOwner.
pub fn check_list_address(program_id: &Addr, owner: &Addr, name: &Vec<u8>, list_address: &Addr) -> (r:
    Result<u8, ErrorCode>)
    ensures
        r is Ok <==> (derived_address(program_id@, list_tag_spec(), owner@, name_seed_spec(name@))
            matches Some(p) && p.0 == list_address@),
        r matches Ok(bump) ==> derived_address(
            program_id@,
            list_tag_spec(),
            owner@,
            name_seed_spec(name@),
        ) == Some((list_address@, bump)),
        r matches Err(e) ==> e == ErrorCode::WrongListOwner,
{
    match derive_list_address(program_id, owner, name) {
        Some((derived, bump)) => {
            if addr_eq(&derived, list_address) {
                Ok(bump)
            } else {
                proof {
                    if derived@ == list_address@ {
                        assert(derived.bytes =~= list_address.bytes);
                        assert(derived =~= *list_address);
                    }
                }
                Err(ErrorCode::WrongListOwner)
            }
        },
        None => Err(ErrorCode::WrongListOwner),
    }
}

} // verus!
