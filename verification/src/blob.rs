//! The bytes of a font file, shared by everything that was made from them.

use std::sync::Arc;
use vstd::prelude::*;
use vstd::slice::slice_to_vec;

verus! {

/// `Arc::clone`: one more handle to the same allocation. The count of
/// handles goes up by one and what is pointed to is not copied.
#[verifier::external_body]
pub(crate) fn share<T>(data: &Arc<T>) -> (shared: Arc<T>)
    ensures
        shared == *data,
{
    Arc::clone(data)
}

/// The bytes of a font file. Handles that were cloned from one another
/// share the bytes, which live as long as the last handle.
#[derive(Debug)]
pub struct Blob {
    data: Arc<Vec<u8>>,
}

impl View for Blob {
    type V = Seq<u8>;

    closed spec fn view(&self) -> Seq<u8> {
        self.data@
    }
}

impl Blob {
    /// A blob that holds a copy of `data`.
    pub fn new_read_only(data: &[u8]) -> (blob: Blob)
        ensures
            blob@ == data@,
    {
        Blob { data: Arc::new(slice_to_vec(data)) }
    }

    /// A blob that takes over `data`.
    pub fn from_vec(data: Vec<u8>) -> (blob: Blob)
        ensures
            blob@ == data@,
    {
        Blob { data: Arc::new(data) }
    }

    /// The number of bytes.
    pub fn len(&self) -> (len: usize)
        ensures
            len == self@.len(),
    {
        self.data.len()
    }

    /// Whether the blob holds no byte.
    pub fn is_empty(&self) -> (empty: bool)
        ensures
            empty == (self@.len() == 0),
    {
        self.data.len() == 0
    }

    /// The bytes.
    pub fn as_bytes(&self) -> (bytes: &[u8])
        ensures
            bytes@ == self@,
    {
        self.data.as_slice()
    }
}

impl Clone for Blob {
    fn clone(&self) -> (blob: Blob)
        ensures
            blob@ == self@,
    {
        Blob { data: share(&self.data) }
    }
}

} // verus!
