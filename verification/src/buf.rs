//! Byte buffers of the `bytes` crate, as the parsers of this crate see them.
//!
//! What a `Bytes` handle holds is named by [`bytes_view`]; each operation the
//! parsers use is a small wrapper whose contract restates what the `bytes`
//! crate documents of it. [`buffer_from_vec`] and [`buffer_contents`] let
//! callers of the parsers build a buffer and look into one.
use vstd::prelude::*;
use bytes::Buf;
use bytes::Bytes;

verus! {

#[verifier::external_type_specification]
#[verifier::external_body]
pub struct ExBytes(bytes::Bytes);

/// The bytes a `Bytes` handle currently gives access to, front first.
pub uninterp spec fn bytes_view(b: Bytes) -> Seq<u8>;

/// The unsigned big-endian integer written by the bytes of `s`.
pub open spec fn be_value(s: Seq<u8>) -> nat
    decreases s.len(),
{
    if s.len() == 0 {
        0
    } else {
        be_value(s.drop_last()) * 256 + (s.last() as nat)
    }
}

/// The two big-endian bytes of `v`.
pub open spec fn be16_bytes(v: u16) -> Seq<u8> {
    seq![(v >> 8) as u8, (v & 0xff) as u8]
}

/// `Buf::remaining` on `Bytes`: the number of bytes left to read.
#[verifier::external_body]
pub(crate) fn bytes_remaining(b: &Bytes) -> (r: usize)
    ensures
        r == bytes_view(*b).len(),
{
    b.remaining()
}

/// `Bytes::len`: the number of bytes held.
#[verifier::external_body]
pub(crate) fn bytes_len(b: &Bytes) -> (r: usize)
    ensures
        r == bytes_view(*b).len(),
{
    b.len()
}

/// `Buf::get_u8` on `Bytes`: takes the first byte off the front.
/// The crate panics when nothing is left, so that input is excluded.
#[verifier::external_body]
pub(crate) fn bytes_get_u8(b: &mut Bytes) -> (r: u8)
    requires
        bytes_view(*old(b)).len() >= 1,
    ensures
        r == bytes_view(*old(b))[0],
        bytes_view(*final(b)) == bytes_view(*old(b)).drop_first(),
{
    b.get_u8()
}

/// `Buf::get_u16` on `Bytes`: takes the first two bytes off the front and
/// reads them as a big-endian integer. Panics when fewer than two are left.
#[verifier::external_body]
pub(crate) fn bytes_get_u16(b: &mut Bytes) -> (r: u16)
    requires
        bytes_view(*old(b)).len() >= 2,
    ensures
        r == bytes_view(*old(b))[0] * 256 + bytes_view(*old(b))[1],
        bytes_view(*final(b)) == bytes_view(*old(b)).skip(2),
{
    b.get_u16()
}

/// `Buf::get_uint` on `Bytes`: takes `nbytes` bytes off the front and reads
/// them as a big-endian integer. Panics when `nbytes > 8` or fewer bytes are
/// left.
#[verifier::external_body]
pub(crate) fn bytes_get_uint(b: &mut Bytes, nbytes: usize) -> (r: u64)
    requires
        nbytes <= 8,
        bytes_view(*old(b)).len() >= nbytes,
    ensures
        r == be_value(bytes_view(*old(b)).take(nbytes as int)),
        bytes_view(*final(b)) == bytes_view(*old(b)).skip(nbytes as int),
{
    b.get_uint(nbytes)
}

/// `Bytes::split_to`: hands out the first `at` bytes and keeps the rest.
/// Panics when `at` is past the end.
#[verifier::external_body]
pub(crate) fn bytes_split_to(b: &mut Bytes, at: usize) -> (r: Bytes)
    requires
        at <= bytes_view(*old(b)).len(),
    ensures
        bytes_view(r) == bytes_view(*old(b)).take(at as int),
        bytes_view(*final(b)) == bytes_view(*old(b)).skip(at as int),
{
    b.split_to(at)
}

/// `Bytes::new`: an empty buffer.
#[verifier::external_body]
pub(crate) fn bytes_new() -> (r: Bytes)
    ensures
        bytes_view(r) == Seq::<u8>::empty(),
{
    Bytes::new()
}

/// `Bytes::from(Vec<u8>)`: takes over the vector's contents.
#[verifier::external_body]
pub(crate) fn bytes_from_vec(v: Vec<u8>) -> (r: Bytes)
    ensures
        bytes_view(r) == v@,
{
    Bytes::from(v)
}

/// `Bytes::clone`: a second handle onto the same bytes (the derived
/// `Clone` of the NAL unit calls it).
pub assume_specification[ <bytes::Bytes as Clone>::clone ](b: &Bytes) -> (r: Bytes)
    ensures
        bytes_view(r) == bytes_view(*b),
;

/// `<Bytes as AsRef<[u8]>>::as_ref`: the bytes as a slice.
#[verifier::external_body]
pub(crate) fn bytes_as_slice(b: &Bytes) -> (r: &[u8])
    ensures
        r@ == bytes_view(*b),
{
    b.as_ref()
}

/// A buffer holding the bytes of `v`.
pub fn buffer_from_vec(v: Vec<u8>) -> (r: Bytes)
    ensures
        bytes_view(r) == v@,
{
    bytes_from_vec(v)
}

/// The bytes a buffer holds, front first.
pub fn buffer_contents(b: &Bytes) -> (r: &[u8])
    ensures
        r@ == bytes_view(*b),
{
    bytes_as_slice(b)
}

} // verus!
