//! Fixed-width little-endian integers, the building blocks of a datagram.
//!
//! The bytes are produced and read back by `bincode`; this module states what
//! those bytes are and proves that reading inverts writing.

use vstd::arithmetic::div_mod::lemma_div_denominator;
use vstd::prelude::*;

verus! {

/// The four bytes of `v`, least significant first.
pub open spec fn u32_le(v: u32) -> Seq<u8> {
    seq![
        (v % 256) as u8,
        ((v / 0x100) % 256) as u8,
        ((v / 0x1_0000) % 256) as u8,
        ((v / 0x100_0000) % 256) as u8,
    ]
}

/// The number whose little-endian form is the first four bytes of `b`.
pub open spec fn u32_from_le(b: Seq<u8>) -> u32
    recommends
        b.len() >= 4,
{
    (b[0] + b[1] * 0x100 + b[2] * 0x1_0000 + b[3] * 0x100_0000) as u32
}

/// The eight bytes of `v`, least significant first.
pub open spec fn u64_le(v: u64) -> Seq<u8> {
    seq![
        (v % 256) as u8,
        ((v / 0x100) % 256) as u8,
        ((v / 0x1_0000) % 256) as u8,
        ((v / 0x100_0000) % 256) as u8,
        ((v / 0x1_0000_0000) % 256) as u8,
        ((v / 0x100_0000_0000) % 256) as u8,
        ((v / 0x1_0000_0000_0000) % 256) as u8,
        ((v / 0x100_0000_0000_0000) % 256) as u8,
    ]
}

/// The number whose little-endian form is the first eight bytes of `b`.
pub open spec fn u64_from_le(b: Seq<u8>) -> u64
    recommends
        b.len() >= 8,
{
    (b[0] + b[1] * 0x100 + b[2] * 0x1_0000 + b[3] * 0x100_0000 + b[4] * 0x1_0000_0000 + b[5]
        * 0x100_0000_0000 + b[6] * 0x1_0000_0000_0000 + b[7] * 0x100_0000_0000_0000) as u64
}

/// Reading the four bytes of a number gives the number back, whatever follows
/// them.
pub proof fn u32_read_inverts_write(v: u32, rest: Seq<u8>)
    ensures
        u32_le(v).len() == 4,
        u32_from_le(u32_le(v) + rest) == v,
{
    let b = u32_le(v) + rest;
    assert(b[0] == u32_le(v)[0]);
    assert(b[1] == u32_le(v)[1]);
    assert(b[2] == u32_le(v)[2]);
    assert(b[3] == u32_le(v)[3]);
}

/// Reading the eight bytes of a number gives the number back, whatever follows
/// them.
pub proof fn u64_read_inverts_write(v: u64, rest: Seq<u8>)
    ensures
        u64_le(v).len() == 8,
        u64_from_le(u64_le(v) + rest) == v,
{
    let b = u64_le(v) + rest;
    assert(b[0] == u64_le(v)[0]);
    assert(b[1] == u64_le(v)[1]);
    assert(b[2] == u64_le(v)[2]);
    assert(b[3] == u64_le(v)[3]);
    assert(b[4] == u64_le(v)[4]);
    assert(b[5] == u64_le(v)[5]);
    assert(b[6] == u64_le(v)[6]);
    assert(b[7] == u64_le(v)[7]);
    let q0: int = v as int;
    let q1: int = q0 / 256;
    let q2: int = q1 / 256;
    let q3: int = q2 / 256;
    let q4: int = q3 / 256;
    let q5: int = q4 / 256;
    let q6: int = q5 / 256;
    let q7: int = q6 / 256;
    lemma_div_denominator(q0, 0x100, 256);
    lemma_div_denominator(q0, 0x1_0000, 256);
    lemma_div_denominator(q0, 0x100_0000, 256);
    lemma_div_denominator(q0, 0x1_0000_0000, 256);
    lemma_div_denominator(q0, 0x100_0000_0000, 256);
    lemma_div_denominator(q0, 0x1_0000_0000_0000, 256);
    assert(q2 == q0 / 0x1_0000);
    assert(q3 == q0 / 0x100_0000);
    assert(q4 == q0 / 0x1_0000_0000);
    assert(q5 == q0 / 0x100_0000_0000);
    assert(q6 == q0 / 0x1_0000_0000_0000);
    assert(q7 == q0 / 0x100_0000_0000_0000);
    assert(q7 < 256);
    assert(q6 == q6 % 256 + 256 * q7);
    assert(q5 == q5 % 256 + 256 * q6);
    assert(q4 == q4 % 256 + 256 * q5);
    assert(q3 == q3 % 256 + 256 * q4);
    assert(q2 == q2 % 256 + 256 * q3);
    assert(q1 == q1 % 256 + 256 * q2);
    assert(q0 == q0 % 256 + 256 * q1);
}

/// The error of `bincode`, carried through and never looked into.
#[verifier::external_type_specification]
#[verifier::external_body]
pub struct ExBincodeErrorKind(bincode::ErrorKind);

/// `bincode::serialize` on a `u32`. With the options that function fixes
/// (fixed-width integers, little-endian, no size limit) and a `Vec` as its
/// sink, it writes the four bytes of `v`, least significant first, and does not
/// fail.
#[verifier::external_body]
fn write_u32(v: u32) -> (r: Result<Vec<u8>, Box<bincode::ErrorKind>>)
    ensures
        r is Ok,
        r->Ok_0@ == u32_le(v),
{
    bincode::serialize(&v)
}

/// `bincode::serialize` on a `u64`: as for a `u32`, with eight bytes.
#[verifier::external_body]
fn write_u64(v: u64) -> (r: Result<Vec<u8>, Box<bincode::ErrorKind>>)
    ensures
        r is Ok,
        r->Ok_0@ == u64_le(v),
{
    bincode::serialize(&v)
}

/// `bincode::deserialize` to a `u32`. It takes the first four bytes of the
/// slice as a little-endian number and accepts bytes after them; on a slice
/// shorter than that it fails.
#[verifier::external_body]
fn read_u32(bytes: &[u8]) -> (r: Result<u32, Box<bincode::ErrorKind>>)
    ensures
        bytes@.len() >= 4 ==> r is Ok && r->Ok_0 == u32_from_le(bytes@),
        bytes@.len() < 4 ==> r is Err,
{
    bincode::deserialize::<u32>(bytes)
}

/// `bincode::deserialize` to a `u64`: as for a `u32`, with eight bytes.
#[verifier::external_body]
fn read_u64(bytes: &[u8]) -> (r: Result<u64, Box<bincode::ErrorKind>>)
    ensures
        bytes@.len() >= 8 ==> r is Ok && r->Ok_0 == u64_from_le(bytes@),
        bytes@.len() < 8 ==> r is Err,
{
    bincode::deserialize::<u64>(bytes)
}

/// Appends the four bytes of `v` to `out`.
pub fn put_u32(out: &mut Vec<u8>, v: u32)
    ensures
        final(out)@ == old(out)@ + u32_le(v),
{
    match write_u32(v) {
        Ok(mut bytes) => out.append(&mut bytes),
        // Writing a number does not fail.
        Err(_) => {},
    }
}

/// Appends the eight bytes of `v` to `out`.
pub fn put_u64(out: &mut Vec<u8>, v: u64)
    ensures
        final(out)@ == old(out)@ + u64_le(v),
{
    match write_u64(v) {
        Ok(mut bytes) => out.append(&mut bytes),
        // Writing a number does not fail.
        Err(_) => {},
    }
}

/// Reads a `u32` from the front of `bytes`; `None` when fewer than four bytes
/// are there.
pub fn take_u32(bytes: &[u8]) -> (r: Option<u32>)
    ensures
        r == if bytes@.len() >= 4 {
            Some(u32_from_le(bytes@))
        } else {
            None
        },
{
    match read_u32(bytes) {
        Ok(v) => Some(v),
        Err(_) => None,
    }
}

/// Reads a `u64` from the front of `bytes`; `None` when fewer than eight bytes
/// are there.
pub fn take_u64(bytes: &[u8]) -> (r: Option<u64>)
    ensures
        r == if bytes@.len() >= 8 {
            Some(u64_from_le(bytes@))
        } else {
            None
        },
{
    match read_u64(bytes) {
        Ok(v) => Some(v),
        Err(_) => None,
    }
}

} // verus!
