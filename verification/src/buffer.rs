//! Byte-buffer handles for passing verification inputs across an API
//! boundary: a borrowed view of bytes of known length, and an owned buffer
//! that can hand out such views.

use vstd::prelude::*;

verus! {

/// A borrowed view of bytes of known length.
pub struct BytesView<'a> {
    data: &'a [u8],
}

impl<'a> View for BytesView<'a> {
    type V = Seq<u8>;

    closed spec fn view(&self) -> Seq<u8> {
        self.data@
    }
}

impl<'a> BytesView<'a> {
    /// Creates a view of the provided data.
    pub fn new(data: &'a [u8]) -> (r: BytesView<'a>)
        ensures
            r@ == data@,
    {
        BytesView { data }
    }

    /// Creates a view of the provided slice.
    pub fn new_from_slice(slice: &'a [u8]) -> (r: BytesView<'a>)
        ensures
            r@ == slice@,
    {
        BytesView::new(slice)
    }

    /// Returns the viewed bytes as a slice.
    pub fn as_slice(&self) -> (r: &'a [u8])
        ensures
            r@ == self@,
    {
        self.data
    }
}

/// An owned buffer of bytes.
pub struct RustBytes {
    data: Vec<u8>,
}

impl View for RustBytes {
    type V = Seq<u8>;

    closed spec fn view(&self) -> Seq<u8> {
        self.data@
    }
}

impl RustBytes {
    /// Creates an owned buffer holding the provided bytes.
    pub fn new(bytes: Vec<u8>) -> (r: RustBytes)
        ensures
            r@ == bytes@,
    {
        RustBytes { data: bytes }
    }

    /// Returns the held bytes as a slice.
    pub fn as_slice(&self) -> (r: &[u8])
        ensures
            r@ == self@,
    {
        self.data.as_slice()
    }

    /// Returns a borrowed view of the held bytes.
    pub fn as_bytes_view(&self) -> (r: BytesView<'_>)
        ensures
            r@ == self@,
    {
        BytesView::new(self.data.as_slice())
    }
}

} // verus!
