//! Borrowed views of bytes and of sixteen-bit code units.
//!
//! A view holds no data of its own: it is valid as long as what it was made
//! from, and shows the same elements in the same order.

use vstd::prelude::*;

verus! {

/// A borrowed view of bytes.
#[derive(Debug)]
pub struct ByteSlice<'a> {
    data: &'a [u8],
}

impl<'a> View for ByteSlice<'a> {
    type V = Seq<u8>;

    closed spec fn view(&self) -> Seq<u8> {
        self.data@
    }
}

impl<'a> ByteSlice<'a> {
    /// The view of `slice`.
    pub fn new(slice: &'a [u8]) -> (r: Self)
        ensures
            r@ == slice@,
    {
        ByteSlice { data: slice }
    }

    /// Number of bytes in view.
    pub fn len(&self) -> (n: usize)
        ensures
            n == self@.len(),
    {
        self.data.len()
    }

    /// The bytes in view, for as long as what the view was made from.
    pub fn as_slice(&self) -> (r: &'a [u8])
        ensures
            r@ == self@,
    {
        self.data
    }
}

impl<'a> core::ops::Deref for ByteSlice<'a> {
    type Target = [u8];

    fn deref(&self) -> (r: &[u8])
        ensures
            r@ == self@,
    {
        self.data
    }
}

/// A borrowed view of sixteen-bit code units.
#[derive(Debug)]
pub struct CharSlice<'a> {
    data: &'a [u16],
}

impl<'a> View for CharSlice<'a> {
    type V = Seq<u16>;

    closed spec fn view(&self) -> Seq<u16> {
        self.data@
    }
}

impl<'a> CharSlice<'a> {
    /// The view of `slice`.
    pub fn new(slice: &'a [u16]) -> (r: Self)
        ensures
            r@ == slice@,
    {
        CharSlice { data: slice }
    }

    /// Number of code units in view.
    pub fn len(&self) -> (n: usize)
        ensures
            n == self@.len(),
    {
        self.data.len()
    }

    /// The code units in view, for as long as what the view was made from.
    pub fn as_slice(&self) -> (r: &'a [u16])
        ensures
            r@ == self@,
    {
        self.data
    }
}

impl<'a> core::ops::Deref for CharSlice<'a> {
    type Target = [u16];

    fn deref(&self) -> (r: &[u16])
        ensures
            r@ == self@,
    {
        self.data
    }
}

/// A borrowed view of sixteen-bit code units that can be written through.
/// The view holds the caller's storage itself, as `data`: what is written
/// through the view is what the caller finds in that storage once the view
/// is gone.
#[derive(Debug)]
pub struct CharSliceMut<'a> {
    pub data: &'a mut [u16],
}

impl<'a> View for CharSliceMut<'a> {
    type V = Seq<u16>;

    open spec fn view(&self) -> Seq<u16> {
        self.data@
    }
}

impl<'a> CharSliceMut<'a> {
    /// The view of `slice`. The view shows what `slice` holds, and what
    /// `slice` holds in the end is what the view's storage holds in the end.
    pub fn new(slice: &'a mut [u16]) -> (r: Self)
        ensures
            r@ == old(slice)@,
            final(slice)@ == final(r.data)@,
    {
        CharSliceMut { data: slice }
    }

    /// Number of code units in view.
    pub fn len(&self) -> (n: usize)
        ensures
            n == self@.len(),
    {
        self.data.len()
    }
}

impl<'a> core::ops::Deref for CharSliceMut<'a> {
    type Target = [u16];

    fn deref(&self) -> (r: &[u16])
        ensures
            r@ == self@,
    {
        self.data
    }
}

impl<'a> core::ops::DerefMut for CharSliceMut<'a> {
    /// The code units in view, to write through. What is written through the
    /// result is what the view shows afterwards, and the view goes on to end
    /// in the same storage as before.
    fn deref_mut(&mut self) -> (r: &mut [u16])
        ensures
            r@ == old(self)@,
            final(self)@ == final(r)@,
            final(final(self).data)@ == final(old(self).data)@,
    {
        self.data
    }
}

} // verus!
