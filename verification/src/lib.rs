//! The branch cache behind a one-line terminal status summary.
//!
//! A status line is redrawn often, and asking the version-control command for
//! the current branch on every redraw is slow. This library holds the rules
//! by which one stored answer is reused: for the same directory, for less than
//! five seconds. It decides; the caller reads the stored entry, runs the
//! command and writes the entry back.

pub mod entry;
pub mod branch;
pub mod cache;
pub mod clock;
pub mod line;
pub mod path;
