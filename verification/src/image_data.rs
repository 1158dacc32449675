//! One bitmap snapshot: an RGBA pixel buffer plus its dimensions.
//!
//! A snapshot represents one point in edit history. It owns its byte buffer
//! exclusively; when history branches, the buffer is deep-copied with
//! [`ImageDataWrapper::duplicate`] so concurrent edits never alias a shared
//! buffer. The host application converts a snapshot to and from its
//! displayable form (a canvas image) outside this crate.

use vstd::prelude::*;

verus! {

/// An RGBA pixel buffer with its dimensions.
#[derive(Debug)]
pub struct ImageDataWrapper {
    /// Raw pixel bytes, four per pixel (red, green, blue, alpha).
    pub data: Vec<u8>,
    pub width: u32,
    pub height: u32,
}

impl ImageDataWrapper {
    /// The buffer holds exactly four bytes per pixel.
    pub open spec fn wf(self) -> bool {
        self.data@.len() == self.width * self.height * 4
    }

    /// Two snapshots carry the same image: equal bytes and dimensions,
    /// whether or not they share a buffer.
    pub open spec fn same_image(self, other: ImageDataWrapper) -> bool {
        &&& self.data@ == other.data@
        &&& self.width == other.width
        &&& self.height == other.height
    }

    pub fn new(data: Vec<u8>, width: u32, height: u32) -> (r: ImageDataWrapper)
        requires
            data@.len() == width * height * 4,
        ensures
            r.data@ == data@,
            r.width == width,
            r.height == height,
            r.wf(),
    {
        ImageDataWrapper { data, width, height }
    }

    pub fn size(&self) -> (r: (u32, u32))
        ensures
            r.0 == self.width,
            r.1 == self.height,
    {
        (self.width, self.height)
    }

    pub fn len(&self) -> (r: usize)
        ensures
            r == self.data@.len(),
    {
        self.data.len()
    }

    /// Deep-copy the snapshot: a fresh buffer with the same bytes, so the
    /// copy can be mutated in place while the original stays in history.
    pub fn duplicate(&self) -> (r: ImageDataWrapper)
        ensures
            r.same_image(*self),
            self.wf() ==> r.wf(),
    {
        let data = self.data.clone();
        proof {
            assert forall|i: int| 0 <= i < self.data@.len() implies data@[i] == self.data@[i] by {
                assert(cloned::<u8>(self.data@[i], data@[i]));
            }
            assert(data@ =~= self.data@);
        }
        ImageDataWrapper { data, width: self.width, height: self.height }
    }
}

} // verus!
