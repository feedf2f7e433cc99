//! Counts of one ingest batch.
use vstd::prelude::*;

verus! {

/// What one ingest call did: how many documents it saw, added and skipped as duplicates.
#[derive(Debug, Clone)]
pub struct AddDocumentsReport {
    pub total: usize,
    pub added: usize,
    pub skipped_duplicates: usize,
}

impl Default for AddDocumentsReport {
    fn default() -> (r: Self)
        ensures
            r.total == 0 && r.added == 0 && r.skipped_duplicates == 0,
    {
        AddDocumentsReport { total: 0, added: 0, skipped_duplicates: 0 }
    }
}

impl AddDocumentsReport {
    /// Every document counted is either added or skipped.
    pub open spec fn balanced(&self) -> bool {
        self.added + self.skipped_duplicates == self.total
    }

    pub fn new() -> (r: Self)
        ensures
            r.total == 0 && r.added == 0 && r.skipped_duplicates == 0,
    {
        AddDocumentsReport { total: 0, added: 0, skipped_duplicates: 0 }
    }

    pub fn is_all_added(&self) -> (r: bool)
        ensures
            r == (self.skipped_duplicates == 0),
    {
        self.skipped_duplicates == 0
    }

    pub fn record_added(&mut self)
        requires
            old(self).added < usize::MAX,
        ensures
            final(self).added == old(self).added + 1,
            final(self).total == old(self).total,
            final(self).skipped_duplicates == old(self).skipped_duplicates,
    {
        self.added = self.added + 1;
    }

    pub fn record_skipped(&mut self)
        requires
            old(self).skipped_duplicates < usize::MAX,
        ensures
            final(self).skipped_duplicates == old(self).skipped_duplicates + 1,
            final(self).total == old(self).total,
            final(self).added == old(self).added,
    {
        self.skipped_duplicates = self.skipped_duplicates + 1;
    }

    pub fn record_total(&mut self)
        requires
            old(self).total < usize::MAX,
        ensures
            final(self).total == old(self).total + 1,
            final(self).added == old(self).added,
            final(self).skipped_duplicates == old(self).skipped_duplicates,
    {
        self.total = self.total + 1;
    }
}

} // verus!
