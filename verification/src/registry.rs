//! The table of registered descriptors.

use vstd::prelude::*;
use std::collections::hash_map::Entry;
use std::collections::HashMap;
use crate::interest::Interest;

verus! {

/// What is registered for one descriptor: the conditions that its owner
/// waits for, and the handler to call when the kernel reports any.
pub struct Registration<H> {
    pub interest: Interest,
    pub handler: H,
}

/// The registrations, by descriptor. A descriptor has at most one.
pub struct FdTable<H> {
    entries: HashMap<i32, Registration<H>>,
}

impl<H> FdTable<H> {
    /// The registration of each registered descriptor.
    pub closed spec fn view(&self) -> Map<i32, Registration<H>> {
        self.entries@
    }

    /// A table without registrations.
    pub fn new() -> (table: FdTable<H>)
        ensures
            table@ == Map::<i32, Registration<H>>::empty(),
    {
        FdTable { entries: HashMap::new() }
    }

    /// Whether `fd` is registered.
    pub fn contains(&self, fd: i32) -> (present: bool)
        ensures
            present == self@.contains_key(fd),
    {
        broadcast use vstd::std_specs::hash::group_hash_axioms;
        self.entries.contains_key(&fd)
    }

    /// The number of registered descriptors.
    pub fn len(&self) -> (n: usize)
        ensures
            n == self@.len(),
    {
        broadcast use vstd::std_specs::hash::group_hash_axioms;
        self.entries.len()
    }

    /// The mask that `fd` was registered with, exactly as it was given.
    pub fn interest_of(&self, fd: i32) -> (interest: Option<Interest>)
        ensures
            interest == (if self@.contains_key(fd) {
                Some(self@[fd].interest)
            } else {
                None
            }),
    {
        broadcast use vstd::std_specs::hash::group_hash_axioms;
        match self.entries.get(&fd) {
            Some(registration) => Some(registration.interest),
            None => None,
        }
    }

    /// Stores `handler` and `interest` for `fd`, in place of what was stored
    /// for it before. Returns the registration that was replaced.
    pub fn install(&mut self, fd: i32, interest: Interest, handler: H) -> (replaced: Option<Registration<H>>)
        ensures
            final(self)@ == old(self)@.insert(fd, Registration { interest, handler }),
            replaced == (if old(self)@.contains_key(fd) {
                Some(old(self)@[fd])
            } else {
                None
            }),
    {
        broadcast use vstd::std_specs::hash::group_hash_axioms;
        self.entries.insert(fd, Registration { interest, handler })
    }

    /// Forgets `fd`. Returns its registration, or `None` when it had none,
    /// in which case the table is unchanged.
    pub fn remove(&mut self, fd: i32) -> (removed: Option<Registration<H>>)
        ensures
            final(self)@ == old(self)@.remove(fd),
            removed == (if old(self)@.contains_key(fd) {
                Some(old(self)@[fd])
            } else {
                None
            }),
    {
        broadcast use vstd::std_specs::hash::group_hash_axioms;
        self.entries.remove(&fd)
    }
}

impl<H: FnMut(Interest)> FdTable<H> {
    /// Calls the handler of `fd` with the conditions that were observed.
    /// An event for a descriptor that is not registered is dropped: the
    /// result is then `false` and nothing is called.
    pub fn dispatch(&mut self, fd: i32, observed: Interest) -> (called: bool)
        requires
            old(self)@.contains_key(fd) ==> call_requires(old(self)@[fd].handler, (observed,)),
        ensures
            called == old(self)@.contains_key(fd),
            called ==> call_ensures(old(self)@[fd].handler, (observed,), ()),
            final(self)@ == old(self)@,
    {
        broadcast use vstd::std_specs::hash::group_hash_axioms;
        match self.entries.entry(fd) {
            Entry::Occupied(occupied) => {
                let registration = occupied.into_mut();
                (registration.handler)(observed);
                true
            },
            Entry::Vacant(_) => false,
        }
    }
}

} // verus!
