//! Handles on anonymous shared mappings that hold one value of type `T`.
use vstd::prelude::*;

verus! {

/// A handle on a shared mapping at `as_ptr()` sized for one `T`.
///
/// After a fork every process holds a bitwise copy of the handle, pointing at
/// the same physical region. The release flag says whether dropping this copy
/// unmaps the region; the caller clears it in every copy but the one that is
/// to release.
pub struct SharedMemory<T> {
    addr: usize,
    cleanup: bool,
    marker: core::marker::PhantomData<T>,
}

impl<T> SharedMemory<T> {
    /// The address of the value inside the mapping.
    pub closed spec fn addr(&self) -> usize {
        self.addr
    }

    /// Whether dropping this copy releases the mapping.
    pub closed spec fn releases(&self) -> bool {
        self.cleanup
    }

    /// Takes charge of a fresh mapping at `addr` that already holds a `T`:
    /// the new handle is the one responsible for releasing it.
    pub fn from_mapping(addr: usize) -> (r: SharedMemory<T>)
        ensures
            r.addr() == addr,
            r.releases(),
    {
        SharedMemory { addr, cleanup: true, marker: core::marker::PhantomData }
    }

    /// The address of the live value. No synchronisation is done here.
    pub fn as_ptr(&self) -> (r: usize)
        ensures
            r == self.addr(),
    {
        self.addr
    }

    /// The length of the mapping in bytes: the size of one `T`.
    pub fn len(&self) -> (r: usize)
        ensures
            r as nat == vstd::layout::size_of::<T>(),
    {
        core::mem::size_of::<T>()
    }

    /// Whether dropping this copy releases the mapping.
    pub fn cleanup(&self) -> (r: bool)
        ensures
            r == self.releases(),
    {
        self.cleanup
    }

    /// Sets whether dropping this copy releases the mapping.
    pub fn set_cleanup(&mut self, cleanup: bool)
        ensures
            final(self).addr() == old(self).addr(),
            final(self).releases() == cleanup,
    {
        self.cleanup = cleanup;
    }

    /// The copy of this handle that a forked process holds: the same
    /// address and the same release flag.
    pub fn fork_copy(&self) -> (r: SharedMemory<T>)
        ensures
            r.addr() == self.addr(),
            r.releases() == self.releases(),
    {
        SharedMemory { addr: self.addr, cleanup: self.cleanup, marker: core::marker::PhantomData }
    }

    /// What dropping this copy must unmap: the address and length of the
    /// mapping if the copy is the releasing one, nothing otherwise.
    pub fn unmap_on_drop(&self) -> (r: Option<(usize, usize)>)
        ensures
            self.releases() ==> r == Some((self.addr(), size_of_usize::<T>())),
            !self.releases() ==> r is None,
    {
        if self.cleanup {
            Some((self.addr, core::mem::size_of::<T>()))
        } else {
            None
        }
    }
}

/// The size of a `T` as a `usize`.
pub open spec fn size_of_usize<T>() -> usize {
    vstd::layout::size_of::<T>() as usize
}

} // verus!
