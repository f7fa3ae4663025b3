//! Traits which allow byte slices to be interpreted as sequences of bytes
//! that stand for different values packed together using network byte
//! ordering (such as network packets).
//!
//! The main use of these traits is reading and writing numerical values at
//! a given offset in the underlying bytes.  The read-only capability and
//! the mutable capability are two traits, the mutable one extending the
//! read-only one: an owned buffer carries both, a borrowed slice only the
//! first.
//!
//! Method names carry the **unchecked** suffix as a reminder that their
//! preconditions demand an offset inside the bounds of the slice; an
//! unchecked caller that violates them is stopped by a panic.

use vstd::prelude::*;
use vstd::slice::{slice_index_get, slice_subrange};

verus! {

/// The big-endian `u16` packed at `off` in `s`.
pub open spec fn spec_be_u16(s: Seq<u8>, off: int) -> u16 {
    (s[off] * 0x100 + s[off + 1]) as u16
}

/// The big-endian `u32` packed at `off` in `s`.
pub open spec fn spec_be_u32(s: Seq<u8>, off: int) -> u32 {
    (s[off] * 0x100_0000 + s[off + 1] * 0x1_0000 + s[off + 2] * 0x100 + s[off + 3]) as u32
}

/// Reading back a `u16` written in network byte order returns the value:
/// the two bytes an `htons` write leaves at `off` reassemble to `value`.
pub proof fn lemma_be_u16_round_trip(s: Seq<u8>, off: int, value: u16)
    requires
        0 <= off,
        off + 2 <= s.len(),
    ensures
        spec_be_u16(
            s.update(off, (value / 0x100) as u8).update(off + 1, (value % 0x100) as u8),
            off,
        ) == value,
{
}

/// Reading back a `u32` written in network byte order returns the value:
/// the four bytes an `htonl` write leaves at `off` reassemble to `value`.
pub proof fn lemma_be_u32_round_trip(s: Seq<u8>, off: int, value: u32)
    requires
        0 <= off,
        off + 4 <= s.len(),
    ensures
        spec_be_u32(
            s.update(off, (value / 0x100_0000) as u8).update(
                off + 1,
                ((value / 0x1_0000) % 0x100) as u8,
            ).update(off + 2, ((value / 0x100) % 0x100) as u8).update(off + 3, (value % 0x100) as u8),
            off,
        ) == value,
{
    assert((value / 0x100_0000) * 0x100_0000 + ((value / 0x1_0000) % 0x100) * 0x1_0000 + ((value
        / 0x100) % 0x100) * 0x100 + value % 0x100 == value) by (nonlinear_arith);
}

/// Represents an immutable view into a sequence of bytes which stands for
/// different values packed together using network byte ordering.
pub trait NetworkBytes {
    /// The bytes currently visible through the view.
    spec fn bytes(&self) -> Seq<u8>;

    /// The number of bytes in the view.
    fn len(&self) -> (r: usize)
        ensures
            r == self.bytes().len(),
    ;

    /// Reads the `u16` value at `offset`, converting it to host byte
    /// ordering.
    fn ntohs_unchecked(&self, offset: usize) -> (r: u16)
        requires
            offset + 2 <= self.bytes().len(),
        ensures
            r == spec_be_u16(self.bytes(), offset as int),
    ;

    /// Reads the `u32` value at `offset`, converting it to host byte
    /// ordering.
    fn ntohl_unchecked(&self, offset: usize) -> (r: u32)
        requires
            offset + 4 <= self.bytes().len(),
        ensures
            r == spec_be_u32(self.bytes(), offset as int),
    ;

    /// Shrinks the view to its first `len` bytes.
    fn shrink_unchecked(&mut self, len: usize)
        requires
            len <= old(self).bytes().len(),
        ensures
            final(self).bytes() == old(self).bytes().take(len as int),
    ;
}

/// Offers mutable access to a sequence of bytes which stands for
/// different values packed together using network byte ordering.
pub trait NetworkBytesMut: NetworkBytes {
    /// Writes the given `u16` value at `offset` using network byte
    /// ordering.
    fn htons_unchecked(&mut self, offset: usize, value: u16)
        requires
            offset + 2 <= old(self).bytes().len(),
        ensures
            final(self).bytes() == old(self).bytes().update(
                offset as int,
                (value / 0x100) as u8,
            ).update(offset as int + 1, (value % 0x100) as u8),
    ;

    /// Writes the given `u32` value at `offset` using network byte
    /// ordering.
    fn htonl_unchecked(&mut self, offset: usize, value: u32)
        requires
            offset + 4 <= old(self).bytes().len(),
        ensures
            final(self).bytes() == old(self).bytes().update(
                offset as int,
                (value / 0x100_0000) as u8,
            ).update(offset as int + 1, ((value / 0x1_0000) % 0x100) as u8).update(
                offset as int + 2,
                ((value / 0x100) % 0x100) as u8,
            ).update(offset as int + 3, (value % 0x100) as u8),
    ;
}

impl NetworkBytes for Vec<u8> {
    open spec fn bytes(&self) -> Seq<u8> {
        self@
    }

    fn len(&self) -> (r: usize) {
        Vec::len(self)
    }

    fn ntohs_unchecked(&self, offset: usize) -> (r: u16) {
        let _len = Vec::len(self);
        let hi = self[offset];
        let lo = self[offset + 1];
        (hi as u16) * 0x100 + (lo as u16)
    }

    fn ntohl_unchecked(&self, offset: usize) -> (r: u32) {
        let _len = Vec::len(self);
        let b0 = self[offset];
        let b1 = self[offset + 1];
        let b2 = self[offset + 2];
        let b3 = self[offset + 3];
        (b0 as u32) * 0x100_0000 + (b1 as u32) * 0x1_0000 + (b2 as u32) * 0x100 + (b3 as u32)
    }

    fn shrink_unchecked(&mut self, len: usize) {
        self.truncate(len);
        proof {
            assert(self@ =~= old(self)@.take(len as int));
        }
    }
}

impl NetworkBytesMut for Vec<u8> {
    fn htons_unchecked(&mut self, offset: usize, value: u16) {
        let _len = Vec::len(self);
        self[offset] = (value / 0x100) as u8;
        self[offset + 1] = (value % 0x100) as u8;
    }

    fn htonl_unchecked(&mut self, offset: usize, value: u32) {
        let _len = Vec::len(self);
        self[offset] = (value / 0x100_0000) as u8;
        self[offset + 1] = ((value / 0x1_0000) % 0x100) as u8;
        self[offset + 2] = ((value / 0x100) % 0x100) as u8;
        self[offset + 3] = (value % 0x100) as u8;
    }
}

impl<'a> NetworkBytes for &'a [u8] {
    open spec fn bytes(&self) -> Seq<u8> {
        (*self)@
    }

    fn len(&self) -> (r: usize) {
        <[u8]>::len(*self)
    }

    fn ntohs_unchecked(&self, offset: usize) -> (r: u16) {
        let _len = <[u8]>::len(*self);
        let hi = *slice_index_get(*self, offset);
        let lo = *slice_index_get(*self, offset + 1);
        (hi as u16) * 0x100 + (lo as u16)
    }

    fn ntohl_unchecked(&self, offset: usize) -> (r: u32) {
        let _len = <[u8]>::len(*self);
        let b0 = *slice_index_get(*self, offset);
        let b1 = *slice_index_get(*self, offset + 1);
        let b2 = *slice_index_get(*self, offset + 2);
        let b3 = *slice_index_get(*self, offset + 3);
        (b0 as u32) * 0x100_0000 + (b1 as u32) * 0x1_0000 + (b2 as u32) * 0x100 + (b3 as u32)
    }

    fn shrink_unchecked(&mut self, len: usize) {
        *self = slice_subrange(*self, 0, len);
        proof {
            assert((*self)@ =~= old(self).bytes().take(len as int));
        }
    }
}

/// A wrapper around any type carrying a `NetworkBytes` view, so that types
/// built on such a view need only hold this member.
#[derive(Debug)]
pub struct InnerBytes<T> {
    bytes: T,
}

impl<T: NetworkBytes> InnerBytes<T> {
    /// Creates a new instance as a wrapper around `inner`.
    pub fn new(inner: T) -> (r: Self)
        ensures
            r.bytes() == inner.bytes(),
    {
        InnerBytes { bytes: inner }
    }
}

impl<T: NetworkBytes> NetworkBytes for InnerBytes<T> {
    closed spec fn bytes(&self) -> Seq<u8> {
        self.bytes.bytes()
    }

    fn len(&self) -> (r: usize) {
        self.bytes.len()
    }

    fn ntohs_unchecked(&self, offset: usize) -> (r: u16) {
        self.bytes.ntohs_unchecked(offset)
    }

    fn ntohl_unchecked(&self, offset: usize) -> (r: u32) {
        self.bytes.ntohl_unchecked(offset)
    }

    fn shrink_unchecked(&mut self, len: usize) {
        self.bytes.shrink_unchecked(len)
    }
}

impl<T: NetworkBytesMut> NetworkBytesMut for InnerBytes<T> {
    fn htons_unchecked(&mut self, offset: usize, value: u16) {
        self.bytes.htons_unchecked(offset, value)
    }

    fn htonl_unchecked(&mut self, offset: usize, value: u32) {
        self.bytes.htonl_unchecked(offset, value)
    }
}

} // verus!
