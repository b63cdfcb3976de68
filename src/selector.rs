//! Choosing which drifting bottle to retrieve, from raw account data.
//!
//! Every account of the program starts with an eight-byte discriminator
//! naming its type: the first eight bytes of the SHA-256 digest of
//! `"account:<Type>"`. A scan keeps the bottle accounts whose state byte
//! says drifting and picks the one with the smallest id.

use crate::layout::{read_u64_le, u64_at, DRIFTING_TAG, ID_OFFSET, STATE_OFFSET};
use sha2::Digest;
use vstd::prelude::*;
use vstd::string::StringSliceAdditionalSpecFns;

verus! {

/// Length of the record-type discriminator at the start of an account.
pub const DISCRIMINATOR_SIZE: usize = 8;

/// The SHA-256 digest of a byte sequence.
pub uninterp spec fn sha256_of(data: Seq<u8>) -> Seq<u8>;

/// Relies on `sha2::Sha256::digest`: the SHA-256 digest of `data`, which is
/// 32 bytes long.
#[verifier::external_body]
fn sha256(data: &[u8]) -> (r: Vec<u8>)
    ensures
        r@ == sha256_of(data@),
        r@.len() == 32,
{
    sha2::Sha256::digest(data).to_vec()
}

/// The discriminator of the account type named by `input`'s bytes.
pub open spec fn discriminator_of(input: Seq<u8>) -> Seq<u8> {
    sha256_of(input).subrange(0, DISCRIMINATOR_SIZE as int)
}

/// The discriminator that marks accounts of the type named `input`
/// (`"account:Bottle"` for bottles).
pub fn calculate_discriminator(input: &str) -> (r: [u8; 8])
    ensures
        r@ == discriminator_of(input.spec_bytes()),
{
    let hash = sha256(input.as_bytes());
    digest_prefix(hash.as_slice())
}

/// The first eight bytes of a digest, which make a discriminator.
pub fn digest_prefix(hash: &[u8]) -> (r: [u8; 8])
    requires
        hash@.len() >= DISCRIMINATOR_SIZE,
    ensures
        r@ == hash@.subrange(0, DISCRIMINATOR_SIZE as int),
{
    let r: [u8; 8] = [hash[0], hash[1], hash[2], hash[3], hash[4], hash[5], hash[6], hash[7]];
    assert(r@ =~= hash@.subrange(0, 8));
    r
}

/// Whether `data` is a bottle account, marked by `discriminator`, whose
/// bottle still drifts.
pub open spec fn is_drifting_bottle(data: Seq<u8>, discriminator: Seq<u8>) -> bool {
    &&& data.len() > STATE_OFFSET
    &&& data.subrange(0, DISCRIMINATOR_SIZE as int) == discriminator
    &&& data[STATE_OFFSET as int] == DRIFTING_TAG
}

/// The id of the bottle whose account data is `data`.
pub open spec fn bottle_id_of(data: Seq<u8>) -> nat {
    u64_at(data, ID_OFFSET as int)
}

/// Whether `i` picks the first least of the values `ids` over the
/// positions that `eligible` admits.
pub open spec fn is_first_least(ids: Seq<nat>, eligible: spec_fn(int) -> bool, i: int) -> bool {
    &&& 0 <= i < ids.len()
    &&& eligible(i)
    &&& forall|j: int| 0 <= j < ids.len() && eligible(j) ==> ids[i] <= #[trigger] ids[j]
    &&& forall|j: int| 0 <= j < i && eligible(j) ==> ids[i] < #[trigger] ids[j]
}

/// Picks the smallest id, the first of equal ones; `None` for no ids.
pub fn oldest_by_id(ids: &Vec<u64>) -> (r: Option<usize>)
    ensures
        r is None <==> ids@.len() == 0,
        r matches Some(i) ==> is_first_least(ids@.map_values(|v: u64| v as nat), |j: int| true, i as int),
{
    let ghost vals = ids@.map_values(|v: u64| v as nat);
    let mut best: Option<usize> = None;
    let mut k: usize = 0;
    while k < ids.len()
        invariant
            k <= ids@.len(),
            vals == ids@.map_values(|v: u64| v as nat),
            best is None <==> k == 0,
            best matches Some(i) ==> i < k && forall|j: int| 0 <= j < k ==> ids@[i as int] <= #[trigger] ids@[j],
            best matches Some(i) ==> forall|j: int| 0 <= j < i ==> ids@[i as int] < #[trigger] ids@[j],
        decreases ids@.len() - k,
    {
        match best {
            None => {
                best = Some(k);
            },
            Some(i) => {
                if ids[k] < ids[i] {
                    best = Some(k);
                }
            },
        }
        k = k + 1;
    }
    best
}

/// Picks, among the accounts whose data is in `records`, the drifting bottle
/// with the smallest id, the first of equal ones; `None` when no record is a
/// drifting bottle.
pub fn oldest_drifting(records: &Vec<Vec<u8>>, discriminator: &[u8; 8]) -> (r: Option<usize>)
    ensures
        r is None <==> forall|j: int|
            0 <= j < records@.len() ==> !is_drifting_bottle(#[trigger] records@[j]@, discriminator@),
        r matches Some(i) ==> is_first_least(
            records@.map_values(|d: Vec<u8>| bottle_id_of(d@)),
            |j: int| is_drifting_bottle(records@[j]@, discriminator@),
            i as int,
        ),
{
    let ghost ids = records@.map_values(|d: Vec<u8>| bottle_id_of(d@));
    let mut best: Option<usize> = None;
    let mut best_id: u64 = 0;
    let mut k: usize = 0;
    while k < records.len()
        invariant
            k <= records@.len(),
            ids == records@.map_values(|d: Vec<u8>| bottle_id_of(d@)),
            best is None <==> forall|j: int|
                0 <= j < k ==> !is_drifting_bottle(#[trigger] records@[j]@, discriminator@),
            best matches Some(i) ==> {
                &&& i < k
                &&& is_drifting_bottle(records@[i as int]@, discriminator@)
                &&& best_id as nat == ids[i as int]
                &&& forall|j: int|
                    0 <= j < k && is_drifting_bottle(records@[j]@, discriminator@) ==> ids[i as int]
                        <= #[trigger] ids[j]
                &&& forall|j: int|
                    0 <= j < i && is_drifting_bottle(records@[j]@, discriminator@) ==> ids[i as int]
                        < #[trigger] ids[j]
            },
        decreases records@.len() - k,
    {
        let data: &Vec<u8> = &records[k];
        if is_drifting_record(data.as_slice(), discriminator) {
            let id = read_u64_le(data.as_slice(), ID_OFFSET);
            let replace = match best {
                None => true,
                Some(_) => id < best_id,
            };
            if replace {
                best = Some(k);
                best_id = id;
            }
        }
        k = k + 1;
    }
    best
}

/// Whether `data` is a bottle account, marked by `discriminator`, whose
/// bottle still drifts.
pub fn is_drifting_record(data: &[u8], discriminator: &[u8; 8]) -> (r: bool)
    ensures
        r == is_drifting_bottle(data@, discriminator@),
{
    if data.len() <= STATE_OFFSET {
        return false;
    }
    let mut i: usize = 0;
    while i < DISCRIMINATOR_SIZE
        invariant
            i <= DISCRIMINATOR_SIZE,
            data@.len() > STATE_OFFSET,
            forall|j: int| 0 <= j < i ==> data@[j] == discriminator@[j],
        decreases DISCRIMINATOR_SIZE - i,
    {
        if data[i] != discriminator[i] {
            assert(data@.subrange(0, 8)[i as int] != discriminator@[i as int]);
            return false;
        }
        i = i + 1;
    }
    assert(data@.subrange(0, 8) =~= discriminator@);
    data[STATE_OFFSET] == DRIFTING_TAG
}

} // verus!
