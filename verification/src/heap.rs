//! Handles to values on the heap that domains share.
//!
//! A value on the shared heap has one owner. A call across a domain boundary
//! takes the handle and hands one back, so the caller cannot touch the value
//! while the callee works on it. Neither handle can be cloned.

use vstd::prelude::*;

verus! {

/// The length of a block buffer, in bytes.
pub const BLOCK_SIZE: usize = 512;

/// An exclusively owned value on the shared heap.
pub struct DBox<T> {
    value: T,
}

impl<T> DBox<T> {
    /// The value that the handle owns.
    pub closed spec fn view(&self) -> T {
        self.value
    }

    /// Puts `value` on the shared heap.
    pub fn new(value: T) -> (handle: Self)
        ensures
            handle@ == value,
    {
        DBox { value }
    }

    /// Reads the value.
    pub fn get(&self) -> (value: &T)
        ensures
            *value == self@,
    {
        &self.value
    }

    /// Overwrites the value.
    pub fn set(&mut self, value: T)
        ensures
            final(self)@ == value,
    {
        self.value = value;
    }

    /// Gives the handle up for the value.
    pub fn into_inner(self) -> (value: T)
        ensures
            value == self@,
    {
        self.value
    }
}

/// A handle to a buffer on the shared heap that outlives a crash of the
/// domain it was handed to.
pub struct RRef<T> {
    value: T,
}

impl<T> RRef<T> {
    /// The buffer that the handle owns.
    pub closed spec fn view(&self) -> T {
        self.value
    }

    /// Puts `value` on the shared heap.
    pub fn new(value: T) -> (handle: Self)
        ensures
            handle@ == value,
    {
        RRef { value }
    }

    /// Reads the buffer.
    pub fn get(&self) -> (value: &T)
        ensures
            *value == self@,
    {
        &self.value
    }

    /// Overwrites the buffer.
    pub fn set(&mut self, value: T)
        ensures
            final(self)@ == value,
    {
        self.value = value;
    }

    /// Gives the handle up for the buffer.
    pub fn into_inner(self) -> (value: T)
        ensures
            value == self@,
    {
        self.value
    }
}

/// Whether `bytes` is a block buffer that holds nothing but zeros.
pub open spec fn is_zeroed(bytes: Seq<u8>) -> bool {
    &&& bytes.len() == BLOCK_SIZE
    &&& forall|i: int| 0 <= i < bytes.len() ==> bytes[i] == 0
}

impl RRef<[u8; 512]> {
    /// The bytes of the block buffer.
    pub open spec fn bytes(&self) -> Seq<u8> {
        self@@
    }

    /// A new block buffer, all zeros.
    pub fn fresh() -> (handle: Self)
        ensures
            is_zeroed(handle.bytes()),
    {
        RRef::new([0u8; 512])
    }
}

} // verus!
