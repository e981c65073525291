//! The byte-buffer pair used to cross the invocation boundary: a
//! borrowing view whose backing buffer the caller keeps alive, and an
//! owning buffer whose ownership transfers whole to the receiver.

use vstd::prelude::*;

verus! {

/// A non-owning view of a byte buffer, lifetime-bound to its source.
/// The caller keeps the backing buffer alive for the call's duration.
#[derive(Clone, Copy)]
pub struct Bytes<'a> {
    data: &'a [u8],
}

impl<'a> View for Bytes<'a> {
    type V = Seq<u8>;

    closed spec fn view(&self) -> Seq<u8> {
        self.data@
    }
}

impl<'a> Bytes<'a> {
    /// Builds a view over a byte slice: same length, same bytes.
    pub fn from_slice(x: &'a [u8]) -> (r: Bytes<'a>)
        ensures
            r@ == x@,
    {
        Bytes { data: x }
    }

    /// The viewed bytes: same length, same bytes as the source buffer.
    pub fn as_slice(&self) -> (r: &'a [u8])
        ensures
            r@ == self@,
    {
        self.data
    }

    /// The number of bytes viewed.
    pub fn len(&self) -> (r: usize)
        ensures
            r == self@.len(),
    {
        self.data.len()
    }
}

/// An owning byte buffer handed across the boundary: ownership transfers
/// whole to the receiver, who releases it exactly once by taking the
/// bytes back out.
pub struct OwnedBytes {
    data: Vec<u8>,
}

impl View for OwnedBytes {
    type V = Seq<u8>;

    closed spec fn view(&self) -> Seq<u8> {
        self.data@
    }
}

impl OwnedBytes {
    /// Takes ownership of a byte vector: same length, same bytes.
    pub fn from_vec(v: Vec<u8>) -> (r: OwnedBytes)
        ensures
            r@ == v@,
    {
        OwnedBytes { data: v }
    }

    /// Releases the buffer, handing the bytes back: the single transfer
    /// out of the handle.
    pub fn into_vec(self) -> (r: Vec<u8>)
        ensures
            r@ == self@,
    {
        self.data
    }

    /// A borrowed view of the owned bytes.
    pub fn as_bytes<'a>(&'a self) -> (r: Bytes<'a>)
        ensures
            r@ == self@,
    {
        Bytes { data: self.data.as_slice() }
    }
}

} // verus!
