//! The byte layout of single values, as `bincode` writes and reads them.
//!
//! The record format is built from five kinds of field. Each of them is
//! written and read by `bincode`, in its fixed-width little-endian
//! configuration; the functions here make those calls, and their contracts
//! state the layout of each field over [`le_bytes`] and [`le_value`].

use vstd::prelude::*;

verus! {

/// The error of `bincode`. Nothing is known of a value of it.
#[verifier::external_type_specification]
#[verifier::external_body]
pub struct ExErrorKind(bincode::ErrorKind);

/// The `width` low-order bytes of `v`, least significant first.
pub open spec fn le_bytes(v: nat, width: nat) -> Seq<u8>
    decreases width,
{
    if width == 0 {
        Seq::empty()
    } else {
        seq![(v % 256) as u8] + le_bytes(v / 256, (width - 1) as nat)
    }
}

/// The number that `bytes` spell, least significant byte first.
pub open spec fn le_value(bytes: Seq<u8>) -> nat
    decreases bytes.len(),
{
    if bytes.len() == 0 {
        0
    } else {
        bytes[0] as nat + 256 * le_value(bytes.skip(1))
    }
}

/// The number of values that `width` bytes can spell.
pub open spec fn radix(width: nat) -> nat
    decreases width,
{
    if width == 0 {
        1
    } else {
        256 * radix((width - 1) as nat)
    }
}

/// The unsigned number with the same 32 bits as `v`.
pub open spec fn twos_complement(v: i32) -> nat {
    if v >= 0 {
        v as nat
    } else {
        (v + 0x1_0000_0000) as nat
    }
}

/// The signed number with the same 32 bits as `v`, for `v` below 2^32.
pub open spec fn from_twos_complement(v: nat) -> i32 {
    if v < 0x8000_0000 {
        v as i32
    } else {
        (v - 0x1_0000_0000) as i32
    }
}

/// `le_bytes` gives as many bytes as it is asked for.
pub proof fn lemma_le_bytes_len(v: nat, width: nat)
    ensures
        le_bytes(v, width).len() == width,
    decreases width,
{
    if width > 0 {
        lemma_le_bytes_len(v / 256, (width - 1) as nat);
    }
}

/// A number that fits in `width` bytes is read back from them unchanged.
pub proof fn lemma_le_value_of_le_bytes(v: nat, width: nat)
    requires
        v < radix(width),
    ensures
        le_value(le_bytes(v, width)) == v,
    decreases width,
{
    if width > 0 {
        let rest = le_bytes(v / 256, (width - 1) as nat);
        let bytes = seq![(v % 256) as u8] + rest;
        lemma_le_value_of_le_bytes(v / 256, (width - 1) as nat);
        assert(bytes.skip(1) =~= rest);
    }
}

/// The radices of the widths in use.
pub proof fn lemma_radix_values()
    ensures
        radix(1) == 0x100,
        radix(4) == 0x1_0000_0000,
        radix(8) == 0x1_0000_0000_0000_0000,
        radix(16) == 0x1_0000_0000_0000_0000_0000_0000_0000_0000,
{
    reveal_with_fuel(radix, 17);
}

/// Calls `bincode::serialize` on a `u32`: the call succeeds and gives the
/// four bytes of the number, least significant first.
#[verifier::external_body]
pub(crate) fn write_u32(v: u32) -> (written: Result<Vec<u8>, bincode::Error>)
    ensures
        written is Ok,
        written matches Ok(bytes) ==> bytes@ == le_bytes(v as nat, 4),
{
    bincode::serialize(&v)
}

/// Calls `bincode::serialize` on an `i32`: the call succeeds and gives the
/// four bytes of the number in two's complement, least significant first.
#[verifier::external_body]
pub(crate) fn write_i32(v: i32) -> (written: Result<Vec<u8>, bincode::Error>)
    ensures
        written is Ok,
        written matches Ok(bytes) ==> bytes@ == le_bytes(twos_complement(v), 4),
{
    bincode::serialize(&v)
}

/// Calls `bincode::serialize` on a `u64`: the call succeeds and gives the
/// eight bytes of the number, least significant first.
#[verifier::external_body]
pub(crate) fn write_u64(v: u64) -> (written: Result<Vec<u8>, bincode::Error>)
    ensures
        written is Ok,
        written matches Ok(bytes) ==> bytes@ == le_bytes(v as nat, 8),
{
    bincode::serialize(&v)
}

/// Calls `bincode::serialize` on a `u128`: the call succeeds and gives the
/// sixteen bytes of the number, least significant first.
#[verifier::external_body]
pub(crate) fn write_u128(v: u128) -> (written: Result<Vec<u8>, bincode::Error>)
    ensures
        written is Ok,
        written matches Ok(bytes) ==> bytes@ == le_bytes(v as nat, 16),
{
    bincode::serialize(&v)
}

/// Calls `bincode::serialize` on a `bool`: the call succeeds and gives one
/// byte, 1 for `true` and 0 for `false`.
#[verifier::external_body]
pub(crate) fn write_bool(v: bool) -> (written: Result<Vec<u8>, bincode::Error>)
    ensures
        written is Ok,
        written matches Ok(bytes) ==> bytes@ == seq![if v { 1u8 } else { 0u8 }],
{
    bincode::serialize(&v)
}

/// Calls `bincode::deserialize` for a `u32`: with four bytes or more the
/// call gives the number that the first four spell, and it leaves the rest
/// unread; with fewer it fails.
#[verifier::external_body]
pub(crate) fn read_u32(bytes: &[u8]) -> (parsed: Result<u32, bincode::Error>)
    ensures
        parsed is Ok <==> bytes@.len() >= 4,
        parsed matches Ok(v) ==> v as nat == le_value(bytes@.take(4)),
{
    bincode::deserialize::<u32>(bytes)
}

/// Calls `bincode::deserialize` for an `i32`: with four bytes or more the
/// call gives the number whose two's complement the first four spell, and
/// it leaves the rest unread; with fewer it fails.
#[verifier::external_body]
pub(crate) fn read_i32(bytes: &[u8]) -> (parsed: Result<i32, bincode::Error>)
    ensures
        parsed is Ok <==> bytes@.len() >= 4,
        parsed matches Ok(v) ==> v == from_twos_complement(le_value(bytes@.take(4))),
{
    bincode::deserialize::<i32>(bytes)
}

/// Calls `bincode::deserialize` for a `u64`: with eight bytes or more the
/// call gives the number that the first eight spell, and it leaves the rest
/// unread; with fewer it fails.
#[verifier::external_body]
pub(crate) fn read_u64(bytes: &[u8]) -> (parsed: Result<u64, bincode::Error>)
    ensures
        parsed is Ok <==> bytes@.len() >= 8,
        parsed matches Ok(v) ==> v as nat == le_value(bytes@.take(8)),
{
    bincode::deserialize::<u64>(bytes)
}

/// Calls `bincode::deserialize` for a `u128`: with sixteen bytes or more
/// the call gives the number that the first sixteen spell, and it leaves the
/// rest unread; with fewer it fails.
#[verifier::external_body]
pub(crate) fn read_u128(bytes: &[u8]) -> (parsed: Result<u128, bincode::Error>)
    ensures
        parsed is Ok <==> bytes@.len() >= 16,
        parsed matches Ok(v) ==> v as nat == le_value(bytes@.take(16)),
{
    bincode::deserialize::<u128>(bytes)
}

/// Calls `bincode::deserialize` for a `bool`: a first byte of 1 gives
/// `true` and one of 0 gives `false`, the rest is left unread; any other
/// first byte, or none, fails.
#[verifier::external_body]
pub(crate) fn read_bool(bytes: &[u8]) -> (parsed: Result<bool, bincode::Error>)
    ensures
        parsed is Err <==> (bytes@.len() == 0 || bytes@[0] > 1),
        parsed matches Ok(v) ==> v == (bytes@[0] == 1),
{
    bincode::deserialize::<bool>(bytes)
}

} // verus!
