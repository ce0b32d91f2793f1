//! When a stored entry may be served, and what is stored after a miss.

use vstd::prelude::*;
use crate::entry::CacheEntry;
use crate::entry::EntryView;
use crate::entry::stored_view;
use crate::branch::CommandOutcome;
use crate::branch::branch_of;
use crate::branch::branch_from_output;
use crate::branch::lemma_branch_is_not_empty;

verus! {

/// Seconds for which a stored entry may be served.
pub const CACHE_TTL: u64 = 5;

/// Whether `entry` answers a question about `dir` asked at `now`: it was made
/// for exactly that directory, and less than `CACHE_TTL` seconds ago. An entry
/// stamped later than `now` counts as just made.
pub open spec fn fresh(entry: EntryView, dir: Seq<char>, now: nat) -> bool {
    entry.dir == dir && now - entry.ts < CACHE_TTL
}

/// The branch that the store answers with, if it answers at all.
pub open spec fn cached_branch(stored: Option<EntryView>, dir: Seq<char>, now: nat) -> Option<
    Seq<char>,
> {
    match stored {
        Some(e) => if fresh(e, dir, now) {
            Some(e.branch)
        } else {
            None
        },
        None => None,
    }
}

/// Whether `entry` may be served for `dir` at `now`.
pub fn is_fresh(entry: &CacheEntry, dir: &str, now: u64) -> (b: bool)
    ensures
        b == fresh(entry@, dir@, now as nat),
{
    let asked: String = dir.to_owned();
    let age: u64 = now.saturating_sub(entry.ts);
    entry.dir == asked && age < CACHE_TTL
}

/// Looks a directory up in what was read from the store. `stored` is `None`
/// where nothing could be read or what was read made no entry. `Some` is a
/// hit: the branch to show, with no need to run the command.
pub fn lookup(stored: Option<CacheEntry>, dir: &str, now: u64) -> (hit: Option<String>)
    ensures
        match hit {
            Some(b) => cached_branch(stored_view(stored), dir@, now as nat) == Some(b@),
            None => cached_branch(stored_view(stored), dir@, now as nat).is_none(),
        },
{
    match stored {
        Some(entry) => {
            if is_fresh(&entry, dir, now) {
                Some(entry.branch)
            } else {
                None
            }
        },
        None => None,
    }
}

/// The entry that is stored after `branch` was found for `dir` at `now`.
pub open spec fn entry_for(branch: Seq<char>, dir: Seq<char>, now: nat) -> EntryView {
    EntryView { branch, dir, ts: now }
}

/// What a miss ends in: the branch to show, and the entry to store in place
/// of whatever the store held.
#[derive(Debug)]
pub struct Resolution {
    pub branch: String,
    pub entry: CacheEntry,
}

/// Ends a miss. The branch is the one that `outcome` stands for, whether a
/// real name or a placeholder, and the entry to store holds that branch for
/// `dir`, stamped `now`. Whether storing it succeeds is of no concern here:
/// the branch is shown either way.
pub fn resolve(dir: &str, now: u64, outcome: &CommandOutcome) -> (r: Resolution)
    ensures
        r.branch@ == branch_of(*outcome),
        r.entry@ == entry_for(branch_of(*outcome), dir@, now as nat),
{
    let branch: String = branch_from_output(outcome);
    let entry = CacheEntry::new(branch.clone(), dir.to_owned(), now);
    Resolution { branch, entry }
}

/// One whole call, as the caller sees it.
pub ghost struct Served {
    /// The branch that is shown.
    pub branch: Seq<char>,
    /// Whether the command was run.
    pub ran: bool,
    /// What the store holds afterwards, where the entry could be written.
    pub stored: Option<EntryView>,
}

/// One whole call about `dir` at `now`, on a store that holds `stored`, where
/// a run of the command would end as `outcome`: a hit shows the stored branch
/// and leaves the store alone, a miss runs the command, shows its branch and
/// stores it.
pub open spec fn serve(
    stored: Option<EntryView>,
    dir: Seq<char>,
    now: nat,
    outcome: CommandOutcome,
) -> Served {
    match cached_branch(stored, dir, now) {
        Some(branch) => Served { branch, ran: false, stored },
        None => Served {
            branch: branch_of(outcome),
            ran: true,
            stored: Some(entry_for(branch_of(outcome), dir, now)),
        },
    }
}

/// How many times the command is run by a call that ended as `served`.
pub open spec fn runs(served: Served) -> nat {
    if served.ran {
        1
    } else {
        0
    }
}

/// Two calls about one directory, the second less than `CACHE_TTL` seconds
/// after the first, run the command at most once between them, whatever the
/// store held before: where the first call ran it, the second is served the
/// branch that the first one stored.
pub proof fn law_repeated_call_is_served(
    stored: Option<EntryView>,
    dir: Seq<char>,
    now: nat,
    later: nat,
    first: CommandOutcome,
    second: CommandOutcome,
)
    requires
        later - now < CACHE_TTL,
    ensures
        runs(serve(stored, dir, now, first)) + runs(
            serve(serve(stored, dir, now, first).stored, dir, later, second),
        ) <= 1,
        serve(stored, dir, now, first).ran ==> serve(
            serve(stored, dir, now, first).stored,
            dir,
            later,
            second,
        ).branch == serve(stored, dir, now, first).branch,
{
}

/// An entry that is `CACHE_TTL` seconds old or older is never served: the
/// command is run again, whatever the entry holds.
pub proof fn law_expired_entry_is_resolved_again(
    entry: EntryView,
    dir: Seq<char>,
    now: nat,
    outcome: CommandOutcome,
)
    requires
        now - entry.ts >= CACHE_TTL,
    ensures
        cached_branch(Some(entry), dir, now).is_none(),
        serve(Some(entry), dir, now, outcome).ran,
        serve(Some(entry), dir, now, outcome).branch == branch_of(outcome),
{
}

/// An entry that was made for another directory is never served, however
/// young it is.
pub proof fn law_other_directory_is_resolved_again(
    entry: EntryView,
    dir: Seq<char>,
    now: nat,
    outcome: CommandOutcome,
)
    requires
        entry.dir != dir,
    ensures
        cached_branch(Some(entry), dir, now).is_none(),
        serve(Some(entry), dir, now, outcome).ran,
        serve(Some(entry), dir, now, outcome).branch == branch_of(outcome),
{
}

/// With nothing usable in the store a call still ends in a branch: the one
/// that the command's outcome stands for, which is never the empty text.
pub proof fn law_empty_store_yields_a_branch(dir: Seq<char>, now: nat, outcome: CommandOutcome)
    ensures
        cached_branch(None, dir, now).is_none(),
        serve(None, dir, now, outcome).ran,
        serve(None, dir, now, outcome).branch == branch_of(outcome),
        branch_of(outcome).len() > 0,
{
    lemma_branch_is_not_empty(outcome);
}

} // verus!
