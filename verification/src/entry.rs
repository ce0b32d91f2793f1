//! The one record that the cache keeps.

use vstd::prelude::*;

verus! {

/// The branch that was found for a directory, and when.
#[derive(Debug, Clone)]
pub struct CacheEntry {
    /// The branch name, or one of the two placeholders.
    pub branch: String,
    /// The directory that was asked about, as it was written by the caller.
    pub dir: String,
    /// Seconds since the epoch at which the branch was found.
    pub ts: u64,
}

/// What a `CacheEntry` holds, as mathematical values.
pub ghost struct EntryView {
    pub branch: Seq<char>,
    pub dir: Seq<char>,
    pub ts: nat,
}

impl View for CacheEntry {
    type V = EntryView;

    open spec fn view(&self) -> EntryView {
        EntryView { branch: self.branch@, dir: self.dir@, ts: self.ts as nat }
    }
}

/// The view of an entry that may be absent.
pub open spec fn stored_view(stored: Option<CacheEntry>) -> Option<EntryView> {
    match stored {
        Some(e) => Some(e@),
        None => None,
    }
}

impl CacheEntry {
    /// An entry for `dir`, found at `ts`.
    pub fn new(branch: String, dir: String, ts: u64) -> (e: CacheEntry)
        ensures
            e@ == (EntryView { branch: branch@, dir: dir@, ts: ts as nat }),
    {
        CacheEntry { branch, dir, ts }
    }
}

} // verus!
