//! The little-endian encoding of unsigned integers.

use vstd::prelude::*;

verus! {

/// The number that `bytes` stand for, least significant byte first.
pub open spec fn le_value(bytes: Seq<u8>) -> nat
    decreases bytes.len(),
{
    if bytes.len() == 0 {
        0
    } else {
        bytes[0] as nat + 256 * le_value(bytes.drop_first())
    }
}

/// The `width` least significant bytes of `value`, least significant first.
pub open spec fn le_bytes(value: nat, width: nat) -> Seq<u8>
    decreases width,
{
    if width == 0 {
        Seq::empty()
    } else {
        seq![(value % 256) as u8] + le_bytes(value / 256, (width - 1) as nat)
    }
}

/// The number of values that `width` bytes can hold.
pub open spec fn le_limit(width: nat) -> nat
    decreases width,
{
    if width == 0 {
        1
    } else {
        256 * le_limit((width - 1) as nat)
    }
}

/// `le_bytes` gives as many bytes as it is asked for.
pub proof fn lemma_le_bytes_len(value: nat, width: nat)
    ensures
        le_bytes(value, width).len() == width,
    decreases width,
{
    if width > 0 {
        lemma_le_bytes_len(value / 256, (width - 1) as nat);
    }
}

/// A value that fits in `width` bytes is what its encoding stands for.
pub proof fn lemma_le_value_of_le_bytes(value: nat, width: nat)
    requires
        value < le_limit(width),
    ensures
        le_value(le_bytes(value, width)) == value,
    decreases width,
{
    if width > 0 {
        let rest = le_bytes(value / 256, (width - 1) as nat);
        let bytes = le_bytes(value, width);
        lemma_le_bytes_len(value, width);
        lemma_le_value_of_le_bytes(value / 256, (width - 1) as nat);
        assert(bytes.drop_first() =~= rest);
    }
}

pub fn u8_to_le(value: u8) -> (bytes: [u8; 1])
    ensures
        bytes@ == le_bytes(value as nat, 1),
{
    let bytes = [value];
    proof {
        reveal_with_fuel(le_bytes, 2);
        assert(bytes@ =~= le_bytes(value as nat, 1));
    }
    bytes
}

pub fn u8_from_le(bytes: &[u8; 1]) -> (value: u8)
    ensures
        value == le_value(bytes@),
{
    proof {
        reveal_with_fuel(le_value, 2);
    }
    bytes[0]
}

pub fn u32_to_le(value: u32) -> (bytes: [u8; 4])
    ensures
        bytes@ == le_bytes(value as nat, 4),
{
    let r1: u32 = value / 256;
    let r2: u32 = r1 / 256;
    let r3: u32 = r2 / 256;
    let bytes = [(value % 256) as u8, (r1 % 256) as u8, (r2 % 256) as u8, (r3 % 256) as u8];
    proof {
        reveal_with_fuel(le_bytes, 5);
        assert(bytes@ =~= le_bytes(value as nat, 4));
    }
    bytes
}

pub fn u32_from_le(bytes: &[u8; 4]) -> (value: u32)
    ensures
        value == le_value(bytes@),
{
    proof {
        reveal_with_fuel(le_value, 5);
    }
    let r3: u32 = bytes[3] as u32;
    let r2: u32 = bytes[2] as u32 + 256 * r3;
    let r1: u32 = bytes[1] as u32 + 256 * r2;
    bytes[0] as u32 + 256 * r1
}

pub fn u64_to_le(value: u64) -> (bytes: [u8; 8])
    ensures
        bytes@ == le_bytes(value as nat, 8),
{
    let r1: u64 = value / 256;
    let r2: u64 = r1 / 256;
    let r3: u64 = r2 / 256;
    let r4: u64 = r3 / 256;
    let r5: u64 = r4 / 256;
    let r6: u64 = r5 / 256;
    let r7: u64 = r6 / 256;
    let bytes = [
        (value % 256) as u8,
        (r1 % 256) as u8,
        (r2 % 256) as u8,
        (r3 % 256) as u8,
        (r4 % 256) as u8,
        (r5 % 256) as u8,
        (r6 % 256) as u8,
        (r7 % 256) as u8,
    ];
    proof {
        reveal_with_fuel(le_bytes, 9);
        assert(bytes@ =~= le_bytes(value as nat, 8));
    }
    bytes
}

pub fn u64_from_le(bytes: &[u8; 8]) -> (value: u64)
    ensures
        value == le_value(bytes@),
{
    proof {
        reveal_with_fuel(le_value, 9);
    }
    let r7: u64 = bytes[7] as u64;
    let r6: u64 = bytes[6] as u64 + 256 * r7;
    let r5: u64 = bytes[5] as u64 + 256 * r6;
    let r4: u64 = bytes[4] as u64 + 256 * r5;
    let r3: u64 = bytes[3] as u64 + 256 * r4;
    let r2: u64 = bytes[2] as u64 + 256 * r3;
    let r1: u64 = bytes[1] as u64 + 256 * r2;
    bytes[0] as u64 + 256 * r1
}

} // verus!
