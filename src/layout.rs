//! The byte layout of a bottle account: an eight-byte discriminator, then
//! the fields of the bottle in order, integers little-endian, and the
//! message as a four-byte length followed by its UTF-8 bytes.

use crate::program::{Bottle, BottleState};
use vstd::prelude::*;
use vstd::utf8::{decode_utf8, valid_utf8};

verus! {

/// Offset of a bottle's `id` in its account data.
pub const ID_OFFSET: usize = 8;

/// Offset of a bottle's `sender` key.
pub const SENDER_OFFSET: usize = 16;

/// Offset of a bottle's `timestamp`.
pub const TIMESTAMP_OFFSET: usize = 48;

/// Offset of a bottle's state byte.
pub const STATE_OFFSET: usize = 56;

/// Offset of a bottle's `asset`.
pub const ASSET_OFFSET: usize = 57;

/// Offset of a bottle's `asset_account` key.
pub const ASSET_ACCOUNT_OFFSET: usize = 65;

/// Offset of a bottle's `bump`.
pub const BUMP_OFFSET: usize = 97;

/// Offset of the four-byte length of a bottle's message.
pub const MESSAGE_LEN_OFFSET: usize = 98;

/// Offset of the bytes of a bottle's message.
pub const MESSAGE_OFFSET: usize = 102;

/// The state byte of a drifting bottle.
pub const DRIFTING_TAG: u8 = 0;

/// The state byte of a retrieved bottle.
pub const RETRIEVED_TAG: u8 = 1;

/// The unsigned value of little-endian bytes.
pub open spec fn le_value(s: Seq<u8>) -> nat
    decreases s.len(),
{
    if s.len() == 0 {
        0
    } else {
        s[0] as nat + 256 * le_value(s.drop_first())
    }
}

/// The value of `n` bytes is below `256^n`.
pub open spec fn byte_bound(n: nat) -> nat
    decreases n,
{
    if n == 0 {
        1
    } else {
        256 * byte_bound((n - 1) as nat)
    }
}

proof fn lemma_le_value_bound(s: Seq<u8>)
    ensures
        le_value(s) < byte_bound(s.len()),
    decreases s.len(),
{
    if s.len() > 0 {
        lemma_le_value_bound(s.drop_first());
    }
}

/// The unsigned little-endian integer of `width` bytes at `offset` in `data`.
pub open spec fn le_at(data: Seq<u8>, offset: int, width: int) -> nat {
    le_value(data.subrange(offset, offset + width))
}

/// The little-endian `u64` held at `offset` in `data`.
pub open spec fn u64_at(data: Seq<u8>, offset: int) -> nat {
    le_at(data, offset, 8)
}

/// Reads the unsigned little-endian integer of `width` bytes at `offset`.
pub fn read_le(data: &[u8], offset: usize, width: usize) -> (r: u64)
    requires
        width <= 8,
        offset + width <= data@.len(),
    ensures
        r as nat == le_at(data@, offset as int, width as int),
{
    let mut acc: u64 = 0;
    let mut i: usize = width;
    let len: usize = data.len();
    proof {
        assert(byte_bound(0) == 1);
    }
    while i > 0
        invariant
            width <= 8,
            offset + width <= data@.len(),
            len == data@.len(),
            i <= width,
            acc as nat == le_value(data@.subrange(offset + i, offset + width)),
            acc < byte_bound((width - i) as nat),
        decreases i,
    {
        let ghost rest = data@.subrange(offset + i, offset + width);
        let ghost longer = data@.subrange(offset + i - 1, offset + width);
        assert(longer.drop_first() =~= rest);
        proof {
            lemma_byte_bound_mono((width - i) as nat, 7);
            lemma_byte_bound_seven();
        }
        let b: u8 = data[offset + i - 1];
        acc = b as u64 + 256 * acc;
        i = i - 1;
    }
    assert(data@.subrange(offset as int, offset + width) =~= data@.subrange(
        offset + 0,
        offset + width,
    ));
    acc
}

/// Reads the little-endian `u64` at `offset` in `data`.
pub fn read_u64_le(data: &[u8], offset: usize) -> (r: u64)
    requires
        offset + 8 <= data@.len(),
    ensures
        r as nat == u64_at(data@, offset as int),
{
    read_le(data, offset, 8)
}

proof fn lemma_byte_bound_seven()
    ensures
        byte_bound(7) == 72057594037927936,
{
    assert(byte_bound(0) == 1);
    assert(byte_bound(1) == 256);
    assert(byte_bound(2) == 65536);
    assert(byte_bound(3) == 16777216);
    assert(byte_bound(4) == 4294967296);
    assert(byte_bound(5) == 1099511627776);
    assert(byte_bound(6) == 281474976710656);
    assert(byte_bound(7) == 72057594037927936);
}

proof fn lemma_byte_bound_mono(a: nat, b: nat)
    requires
        a <= b,
    ensures
        byte_bound(a) <= byte_bound(b),
    decreases b,
{
    if a < b {
        lemma_byte_bound_mono(a, (b - 1) as nat);
    }
}

/// Copies the 32-byte key at `offset` in `data`.
pub fn read_key(data: &[u8], offset: usize) -> (r: [u8; 32])
    requires
        offset + 32 <= data@.len(),
    ensures
        r@ == data@.subrange(offset as int, offset + 32),
{
    let mut key: [u8; 32] = [0u8; 32];
    let mut i: usize = 0;
    let len: usize = data.len();
    while i < 32
        invariant
            offset + 32 <= data@.len(),
            len == data@.len(),
            i <= 32,
            key@.len() == 32,
            forall|j: int| 0 <= j < i ==> key@[j] == data@[offset + j],
        decreases 32 - i,
    {
        key.set(i, data[offset + i]);
        i = i + 1;
    }
    assert(key@ =~= data@.subrange(offset as int, offset + 32));
    key
}

/// The signed value whose two's-complement 64-bit pattern is `v`.
pub open spec fn signed_of(v: nat) -> int {
    if v < 0x8000_0000_0000_0000 {
        v as int
    } else {
        v - 0x1_0000_0000_0000_0000
    }
}

/// Reads the little-endian two's-complement `i64` at `offset` in `data`.
pub fn read_i64_le(data: &[u8], offset: usize) -> (r: i64)
    requires
        offset + 8 <= data@.len(),
    ensures
        r as int == signed_of(u64_at(data@, offset as int)),
{
    let raw = read_u64_le(data, offset);
    if raw < 0x8000_0000_0000_0000 {
        raw as i64
    } else {
        let below: u64 = u64::MAX - raw;
        -(below as i64) - 1
    }
}

/// Relies on `std::str::from_utf8`: it accepts exactly the well-formed UTF-8
/// byte sequences, and the string it gives holds the characters they
/// encode.
#[verifier::external_body]
fn utf8_string(bytes: &[u8]) -> (r: Option<String>)
    ensures
        r is Some <==> valid_utf8(bytes@),
        r matches Some(s) ==> s@ == decode_utf8(bytes@),
{
    std::str::from_utf8(bytes).ok().map(|s| s.to_string())
}

/// The state that a state byte stands for, if any.
pub open spec fn state_of_tag(tag: u8) -> Option<BottleState> {
    if tag == DRIFTING_TAG {
        Some(BottleState::Drifting)
    } else if tag == RETRIEVED_TAG {
        Some(BottleState::Retrieved)
    } else {
        None
    }
}

/// The length of the message that the account data `data` announces.
pub open spec fn message_len_of(data: Seq<u8>) -> nat {
    le_at(data, MESSAGE_LEN_OFFSET as int, 4)
}

/// The bytes of the message in the account data `data`.
pub open spec fn message_bytes_of(data: Seq<u8>) -> Seq<u8> {
    data.subrange(MESSAGE_OFFSET as int, MESSAGE_OFFSET + message_len_of(data))
}

/// Whether `data` holds a bottle account marked by `discriminator`: long
/// enough for every field, with a known state byte, and a message that fits
/// and is UTF-8. Bytes after the message are allowed.
pub open spec fn is_bottle_data(data: Seq<u8>, discriminator: Seq<u8>) -> bool {
    &&& data.len() >= MESSAGE_OFFSET
    &&& data.subrange(0, 8) == discriminator
    &&& state_of_tag(data[STATE_OFFSET as int]) is Some
    &&& MESSAGE_OFFSET + message_len_of(data) <= data.len()
    &&& valid_utf8(message_bytes_of(data))
}

/// Whether `b` holds the fields that the bottle account data `data` stores.
pub open spec fn decodes_to(data: Seq<u8>, b: Bottle) -> bool {
    &&& b.id as nat == u64_at(data, ID_OFFSET as int)
    &&& b.sender@ == data.subrange(SENDER_OFFSET as int, SENDER_OFFSET + 32)
    &&& b.timestamp as int == signed_of(u64_at(data, TIMESTAMP_OFFSET as int))
    &&& Some(b.state) == state_of_tag(data[STATE_OFFSET as int])
    &&& b.asset as nat == u64_at(data, ASSET_OFFSET as int)
    &&& b.asset_account@ == data.subrange(ASSET_ACCOUNT_OFFSET as int, ASSET_ACCOUNT_OFFSET + 32)
    &&& b.bump == data[BUMP_OFFSET as int]
    &&& b.message@ == decode_utf8(message_bytes_of(data))
}

/// Decodes the bottle stored in account data `data`, or `None` when `data`
/// is not a bottle account marked by `discriminator`.
pub fn decode_bottle(data: &[u8], discriminator: &[u8; 8]) -> (r: Option<Bottle>)
    ensures
        r is Some <==> is_bottle_data(data@, discriminator@),
        r matches Some(b) ==> decodes_to(data@, b),
{
    if data.len() < MESSAGE_OFFSET {
        return None;
    }
    let mut i: usize = 0;
    while i < 8
        invariant
            i <= 8,
            data@.len() >= MESSAGE_OFFSET,
            forall|j: int| 0 <= j < i ==> data@[j] == discriminator@[j],
        decreases 8 - i,
    {
        if data[i] != discriminator[i] {
            assert(data@.subrange(0, 8)[i as int] != discriminator@[i as int]);
            return None;
        }
        i = i + 1;
    }
    assert(data@.subrange(0, 8) =~= discriminator@);
    let tag = data[STATE_OFFSET];
    let state = if tag == DRIFTING_TAG {
        BottleState::Drifting
    } else if tag == RETRIEVED_TAG {
        BottleState::Retrieved
    } else {
        return None;
    };
    let n = read_le(data, MESSAGE_LEN_OFFSET, 4);
    let room: usize = data.len() - MESSAGE_OFFSET;
    if n > room as u64 {
        return None;
    }
    let end: usize = MESSAGE_OFFSET + n as usize;
    let message = match utf8_string(vstd::slice::slice_subrange(data, MESSAGE_OFFSET, end)) {
        Some(m) => m,
        None => {
            return None;
        },
    };
    let b = Bottle {
        id: read_u64_le(data, ID_OFFSET),
        sender: read_key(data, SENDER_OFFSET),
        timestamp: read_i64_le(data, TIMESTAMP_OFFSET),
        state,
        asset: read_u64_le(data, ASSET_OFFSET),
        asset_account: read_key(data, ASSET_ACCOUNT_OFFSET),
        bump: data[BUMP_OFFSET],
        message,
    };
    Some(b)
}

} // verus!
