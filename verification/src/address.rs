//! Derived addresses: where the record of a creator, and of each of a
//! creator's tips, lies.

use crate::state::Pubkey;
use vstd::prelude::*;

verus! {

/// The identity of this program: the namespace of every derived address.
pub const PROGRAM_ID: [u8; 32] = [
    225, 8, 144, 228, 24, 198, 19, 132, 45, 124, 152, 24, 16, 20, 75, 95,
    254, 11, 74, 77, 21, 17, 33, 55, 62, 151, 10, 233, 57, 3, 14, 126,
];

/// The address and bump that the host derives from a list of seeds under a
/// program's identity, or `None` where it derives none.
pub uninterp spec fn program_address(seeds: Seq<Seq<u8>>, program_id: Seq<u8>) -> Option<
    (Seq<u8>, u8),
>;

/// Calls `Pubkey::try_find_program_address` of `anchor_lang`. The contract
/// claims that the call is a function of the seeds and the program's
/// identity alone, and gives its result the name `program_address`; it
/// claims nothing of what that result is.
#[verifier::external_body]
fn find_program_address(seeds: &Vec<Vec<u8>>, program_id: &Pubkey) -> (found: Option<
    (Pubkey, u8),
>)
    ensures
        address_view(found) == program_address(seeds.deep_view(), program_id@),
{
    let parts: Vec<&[u8]> = seeds.iter().map(|seed| seed.as_slice()).collect();
    let id = anchor_lang::prelude::Pubkey::new_from_array(program_id.bytes);
    match anchor_lang::prelude::Pubkey::try_find_program_address(&parts, &id) {
        Some((address, bump)) => Some((Pubkey { bytes: address.to_bytes() }, bump)),
        None => None,
    }
}

/// What a derived address stands for: its bytes and its bump.
pub open spec fn address_view(found: Option<(Pubkey, u8)>) -> Option<(Seq<u8>, u8)> {
    match found {
        Some((address, bump)) => Some((address@, bump)),
        None => None,
    }
}

/// The seeds of a creator record: the word `creator`, then the owner.
pub open spec fn creator_seeds(owner: Seq<u8>) -> Seq<Seq<u8>> {
    seq![seq![99u8, 114u8, 101u8, 97u8, 116u8, 111u8, 114u8], owner]
}

/// The seeds of a tip record: the word `tip`, then the address of the
/// creator record, then the tip's sequence number, low byte first.
pub open spec fn tip_seeds(creator: Seq<u8>, index: u64) -> Seq<Seq<u8>> {
    seq![seq![116u8, 105u8, 112u8], creator, vstd::bytes::spec_u64_to_le_bytes(index)]
}

/// Where the creator record of `owner` lies.
pub open spec fn creator_address_spec(owner: Seq<u8>) -> Option<(Seq<u8>, u8)> {
    program_address(creator_seeds(owner), PROGRAM_ID@)
}

/// Where the tip with sequence number `index` of the creator record at
/// `creator` lies.
pub open spec fn tip_address_spec(creator: Seq<u8>, index: u64) -> Option<(Seq<u8>, u8)> {
    program_address(tip_seeds(creator, index), PROGRAM_ID@)
}

/// Derives the address of the creator record of `owner`.
pub fn creator_address(owner: &Pubkey) -> (found: Option<(Pubkey, u8)>)
    ensures
        address_view(found) == creator_address_spec(owner@),
{
    let mut word: Vec<u8> = Vec::new();
    word.push(99u8);
    word.push(114u8);
    word.push(101u8);
    word.push(97u8);
    word.push(116u8);
    word.push(111u8);
    word.push(114u8);
    let mut seeds: Vec<Vec<u8>> = Vec::new();
    seeds.push(word);
    seeds.push(bytes_of(owner));
    let id = Pubkey { bytes: PROGRAM_ID };
    assert(seeds.deep_view() =~= creator_seeds(owner@)) by {
        assert(seeds.deep_view()[0] =~= creator_seeds(owner@)[0]);
        assert(seeds.deep_view()[1] =~= creator_seeds(owner@)[1]);
    }
    find_program_address(&seeds, &id)
}

/// Derives the address of the tip with sequence number `index` of the
/// creator record at `creator`.
pub fn tip_address(creator: &Pubkey, index: u64) -> (found: Option<(Pubkey, u8)>)
    ensures
        address_view(found) == tip_address_spec(creator@, index),
{
    let mut word: Vec<u8> = Vec::new();
    word.push(116u8);
    word.push(105u8);
    word.push(112u8);
    let mut seeds: Vec<Vec<u8>> = Vec::new();
    seeds.push(word);
    seeds.push(bytes_of(creator));
    seeds.push(vstd::bytes::u64_to_le_bytes(index));
    let id = Pubkey { bytes: PROGRAM_ID };
    assert(seeds.deep_view() =~= tip_seeds(creator@, index)) by {
        assert(seeds.deep_view()[0] =~= tip_seeds(creator@, index)[0]);
        assert(seeds.deep_view()[1] =~= tip_seeds(creator@, index)[1]);
        assert(seeds.deep_view()[2] =~= tip_seeds(creator@, index)[2]);
    }
    find_program_address(&seeds, &id)
}

/// The bytes of an identity, as a seed.
fn bytes_of(key: &Pubkey) -> (out: Vec<u8>)
    ensures
        out@ == key@,
{
    let mut out: Vec<u8> = Vec::new();
    let mut i: usize = 0;
    while i < 32
        invariant
            i <= 32,
            out@.len() == i,
            forall|j: int| 0 <= j < i ==> out@[j] == key.bytes@[j],
        decreases 32 - i,
    {
        out.push(key.bytes[i]);
        i += 1;
    }
    assert(out@ =~= key@);
    out
}

} // verus!
