//! Ownership of one kernel descriptor.

use vstd::prelude::*;
use crate::sys;

verus! {

/// The owner of one kernel descriptor, which it closes when it is dropped.
/// It cannot be copied, so the descriptor is closed exactly once.
pub struct OwnedDescriptor {
    fd: i32,
}

impl OwnedDescriptor {
    /// The descriptor that is owned.
    pub closed spec fn view(&self) -> i32 {
        self.fd
    }

    /// Takes ownership of `fd`.
    pub fn new(fd: i32) -> (owner: OwnedDescriptor)
        ensures
            owner@ == fd,
    {
        OwnedDescriptor { fd }
    }

    /// The descriptor, for handing to system calls. Ownership stays here.
    pub fn raw(&self) -> (fd: i32)
        ensures
            fd == self@,
    {
        self.fd
    }
}

impl Drop for OwnedDescriptor {
    fn drop(&mut self)
        opens_invariants none
        no_unwind
    {
        sys::close(self.fd);
    }
}

} // verus!
