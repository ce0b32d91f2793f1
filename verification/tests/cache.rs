use statusline::branch::CommandOutcome;
use statusline::cache::{is_fresh, lookup, resolve, CACHE_TTL};
use statusline::clock::{now_secs, stamp};
use statusline::entry::CacheEntry;

fn entry(branch: &str, dir: &str, ts: u64) -> CacheEntry {
    CacheEntry::new(branch.to_string(), dir.to_string(), ts)
}

fn exited(success: bool, stdout: &[u8]) -> CommandOutcome {
    CommandOutcome::Exited { success, stdout: stdout.to_vec() }
}

/// One call as a program would make it, on a store and a counter held in
/// memory; `answer` is what the command would write.
fn call(store: &mut Option<CacheEntry>, runs: &mut u32, dir: &str, now: u64, answer: &[u8]) -> String {
    match lookup(store.clone(), dir, now) {
        Some(branch) => branch,
        None => {
            *runs += 1;
            let r = resolve(dir, now, &exited(true, answer));
            *store = Some(r.entry);
            r.branch
        }
    }
}

#[test]
fn ttl_is_five_seconds() {
    assert_eq!(CACHE_TTL, 5);
}

#[test]
fn new_entry_keeps_its_fields() {
    let e = entry("main", "/repo", 17);
    assert_eq!(e.branch, "main");
    assert_eq!(e.dir, "/repo");
    assert_eq!(e.ts, 17);
}

#[test]
fn same_directory_within_ttl_is_a_hit() {
    assert_eq!(lookup(Some(entry("main", "/repo", 100)), "/repo", 100), Some("main".to_string()));
    assert_eq!(lookup(Some(entry("main", "/repo", 100)), "/repo", 104), Some("main".to_string()));
}

#[test]
fn entry_of_exactly_five_seconds_is_a_miss() {
    assert_eq!(lookup(Some(entry("main", "/repo", 100)), "/repo", 105), None);
    assert!(!is_fresh(&entry("main", "/repo", 100), "/repo", 105));
    assert!(is_fresh(&entry("main", "/repo", 100), "/repo", 104));
}

#[test]
fn old_entry_is_a_miss_whatever_it_holds() {
    assert_eq!(lookup(Some(entry("main", "/repo", 100)), "/repo", 1_000), None);
    assert_eq!(lookup(Some(entry("", "/repo", 0)), "/repo", u64::MAX), None);
    assert_eq!(lookup(Some(entry("no-git", "/repo", 7)), "/repo", 12), None);
}

#[test]
fn entry_from_the_future_counts_as_new() {
    assert_eq!(lookup(Some(entry("dev", "/repo", 500)), "/repo", 100), Some("dev".to_string()));
    assert_eq!(lookup(Some(entry("dev", "/repo", u64::MAX)), "/repo", 0), Some("dev".to_string()));
}

#[test]
fn other_directory_is_a_miss_within_ttl() {
    assert_eq!(lookup(Some(entry("main", "/repo", 100)), "/other", 100), None);
    assert_eq!(lookup(Some(entry("main", "/repo", 100)), "/repo/", 101), None);
    assert_eq!(lookup(Some(entry("main", "/repo", 100)), "/Repo", 101), None);
    assert_eq!(lookup(Some(entry("main", "/repo", 100)), "", 101), None);
}

#[test]
fn empty_store_is_a_miss() {
    assert_eq!(lookup(None, "/repo", 100), None);
    assert_eq!(lookup(None, "", 0), None);
}

#[test]
fn resolve_gives_branch_and_entry() {
    let r = resolve("/repo", 1234, &exited(true, b"main\n"));
    assert_eq!(r.branch, "main");
    assert_eq!(r.entry.branch, "main");
    assert_eq!(r.entry.dir, "/repo");
    assert_eq!(r.entry.ts, 1234);
}

#[test]
fn resolve_stores_placeholders_too() {
    let r = resolve("/nowhere", 9, &CommandOutcome::NotRun);
    assert_eq!(r.branch, "no-git");
    assert_eq!(r.entry.branch, "no-git");
    assert_eq!(r.entry.dir, "/nowhere");
    assert_eq!(r.entry.ts, 9);
    let d = resolve("/repo", 10, &exited(true, b""));
    assert_eq!(d.branch, "detached");
    assert_eq!(d.entry.branch, "detached");
}

#[test]
fn two_calls_in_a_row_run_the_command_once() {
    let mut store = None;
    let mut runs = 0;
    assert_eq!(call(&mut store, &mut runs, "/repo", 100, b"main\n"), "main");
    assert_eq!(call(&mut store, &mut runs, "/repo", 100, b"other\n"), "main");
    assert_eq!(runs, 1);
    assert_eq!(call(&mut store, &mut runs, "/repo", 104, b"other\n"), "main");
    assert_eq!(runs, 1);
}

#[test]
fn call_after_ttl_runs_the_command_again() {
    let mut store = None;
    let mut runs = 0;
    assert_eq!(call(&mut store, &mut runs, "/repo", 100, b"main\n"), "main");
    assert_eq!(call(&mut store, &mut runs, "/repo", 105, b"next\n"), "next");
    assert_eq!(runs, 2);
    assert_eq!(store.as_ref().map(|e| e.ts), Some(105));
}

#[test]
fn call_for_another_directory_runs_the_command_again() {
    let mut store = None;
    let mut runs = 0;
    assert_eq!(call(&mut store, &mut runs, "/a", 100, b"main\n"), "main");
    assert_eq!(call(&mut store, &mut runs, "/b", 100, b"dev\n"), "dev");
    assert_eq!(runs, 2);
    assert_eq!(store.as_ref().map(|e| e.dir.clone()), Some("/b".to_string()));
    assert_eq!(call(&mut store, &mut runs, "/a", 101, b"main\n"), "main");
    assert_eq!(runs, 3);
}

#[test]
fn hit_leaves_the_stored_entry_alone() {
    let mut store = Some(entry("main", "/repo", 100));
    let mut runs = 0;
    assert_eq!(call(&mut store, &mut runs, "/repo", 103, b"dev\n"), "main");
    assert_eq!(runs, 0);
    assert_eq!(store.as_ref().map(|e| e.ts), Some(100));
    assert_eq!(call(&mut store, &mut runs, "/repo", 106, b"dev\n"), "dev");
    assert_eq!(runs, 1);
}

#[test]
fn clock_is_past_the_year_2001() {
    assert!(now_secs() > 1_000_000_000);
}

#[test]
fn stamp_is_the_reading_or_zero() {
    assert_eq!(stamp(Some(1_700_000_000)), 1_700_000_000);
    assert_eq!(stamp(Some(0)), 0);
    assert_eq!(stamp(Some(u64::MAX)), u64::MAX);
    assert_eq!(stamp(None), 0);
}
