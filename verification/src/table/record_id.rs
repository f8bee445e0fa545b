use crate::common::page_id::PageId;
use vstd::prelude::*;

verus! {

/// The address of one row: the page it lies on, and its slot there.
pub struct RecordId<P: PageId> {
    pid: P,
    tupleno: i32,
}

impl<P: PageId> RecordId<P> {
    /// The page of this address.
    pub closed spec fn page(&self) -> P {
        self.pid
    }

    /// The slot of this address within its page.
    pub closed spec fn slot(&self) -> i32 {
        self.tupleno
    }

    pub fn new(pid: P, tupleno: i32) -> (r: Self)
        ensures
            r.page() == pid,
            r.slot() == tupleno,
    {
        Self { pid, tupleno }
    }

    pub fn get_tuple_number(&self) -> (n: i32)
        ensures
            n == self.slot(),
    {
        self.tupleno
    }

    pub fn get_page_id(&self) -> (p: &P)
        ensures
            *p == self.page(),
    {
        &self.pid
    }

    /// Two addresses are equal where they name the same page and the same
    /// slot.
    pub fn equals(&self, other: &Self) -> (r: bool)
        ensures
            r == (self.page().same_page(&other.page()) && self.slot() == other.slot()),
    {
        self.tupleno == other.tupleno && self.pid.equals(&other.pid)
    }
}

} // verus!
