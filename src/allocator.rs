//! Identifier allocation: one strictly increasing counter per domain.
use vstd::prelude::*;

verus! {

/// The record families that draw ids from an allocator of their own.
#[derive(Clone, Copy, Debug, PartialEq, Eq, Structural)]
pub enum IdDomain {
    Proposals,
    LedgerEntries,
}

/// Issues the ids of one domain. The counter starts at 0 and each id issued
/// is the counter after one increment, so the first id is 1 and no id is
/// issued twice.
#[derive(Debug)]
pub struct IdAllocator {
    pub domain: IdDomain,
    pub last_issued: u64,
}

impl IdAllocator {
    pub fn new(domain: IdDomain) -> (a: IdAllocator)
        ensures
            a.domain == domain,
            a.last_issued == 0,
    {
        IdAllocator { domain, last_issued: 0 }
    }

    /// The next id of the domain; `None`, with the counter unchanged, once
    /// the counter has reached `u64::MAX`.
    pub fn next_id(&mut self) -> (r: Option<u64>)
        ensures
            final(self).domain == old(self).domain,
            old(self).last_issued < u64::MAX ==> r == Some((old(self).last_issued + 1) as u64)
                && final(self).last_issued == old(self).last_issued + 1,
            old(self).last_issued == u64::MAX ==> r is None && final(self).last_issued
                == old(self).last_issued,
    {
        if self.last_issued == u64::MAX {
            None
        } else {
            self.last_issued = self.last_issued + 1;
            Some(self.last_issued)
        }
    }
}

} // verus!
