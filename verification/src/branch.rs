//! From what the version-control command gave to the branch that is shown.

use vstd::prelude::*;
use vstd::utf8::decode_utf8;
use vstd::utf8::valid_utf8;

verus! {

/// How one run of the "show current branch" command ended.
#[derive(Debug)]
pub enum CommandOutcome {
    /// The command could not be started, or could not be waited for.
    NotRun,
    /// The command ran to its end.
    Exited {
        /// Whether its exit status reports success.
        success: bool,
        /// What it wrote to its standard output.
        stdout: Vec<u8>,
    },
}

/// The text that `String::from_utf8_lossy` makes of `bytes`.
pub uninterp spec fn lossy_text(bytes: Seq<u8>) -> Seq<char>;

/// Whether `c` has the Unicode property White_Space, the class of characters
/// that `str::trim` removes.
pub uninterp spec fn white_space(c: char) -> bool;

/// How many white-space characters `s` starts with.
pub open spec fn leading_space(s: Seq<char>) -> nat
    decreases s.len(),
{
    if s.len() > 0 && white_space(s.first()) {
        1 + leading_space(s.drop_first())
    } else {
        0
    }
}

/// How many white-space characters `s` ends with.
pub open spec fn trailing_space(s: Seq<char>) -> nat
    decreases s.len(),
{
    if s.len() > 0 && white_space(s.last()) {
        1 + trailing_space(s.drop_last())
    } else {
        0
    }
}

/// `s` without the white space at its start and at its end.
pub open spec fn trim_of(s: Seq<char>) -> Seq<char> {
    let rest = s.skip(leading_space(s) as int);
    rest.take(rest.len() - trailing_space(rest))
}

/// The branch that is shown where the command could not answer.
pub open spec fn no_git() -> Seq<char> {
    "no-git"@
}

/// The branch that is shown where the command answered with nothing.
pub open spec fn detached() -> Seq<char> {
    "detached"@
}

/// The branch for the command's trimmed answer.
pub open spec fn branch_of_trimmed(trimmed: Seq<char>) -> Seq<char> {
    if trimmed.len() == 0 {
        detached()
    } else {
        trimmed
    }
}

/// The branch for one run of the command.
pub open spec fn branch_of(outcome: CommandOutcome) -> Seq<char> {
    match outcome {
        CommandOutcome::Exited { success, stdout } => if success {
            branch_of_trimmed(trim_of(lossy_text(stdout@)))
        } else {
            no_git()
        },
        CommandOutcome::NotRun => no_git(),
    }
}

/// Every outcome stands for a branch that is not the empty text.
pub proof fn lemma_branch_is_not_empty(outcome: CommandOutcome)
    ensures
        branch_of(outcome).len() > 0,
{
    reveal_strlit("no-git");
    reveal_strlit("detached");
}

/// Calls `String::from_utf8_lossy` and owns what it gives. The result is a
/// function of the bytes; where they are well-formed UTF-8 it is the text that
/// they encode.
#[verifier::external_body]
fn from_utf8_lossy(bytes: &[u8]) -> (text: String)
    ensures
        text@ == lossy_text(bytes@),
        valid_utf8(bytes@) ==> text@ == decode_utf8(bytes@),
{
    String::from_utf8_lossy(bytes).into_owned()
}

/// Calls `str::trim`: the result is the text between the white space that
/// `s` starts with and the white space that it ends with, so it neither
/// starts nor ends with white space itself.
#[verifier::external_body]
pub(crate) fn trim(s: &str) -> (t: &str)
    ensures
        t@ == trim_of(s@),
        t@.len() > 0 ==> !white_space(t@.first()) && !white_space(t@.last()),
{
    s.trim()
}

/// The branch for the command's trimmed answer: the answer itself, or
/// `"detached"` where there is none.
pub fn branch_from_trimmed(trimmed: &str) -> (branch: String)
    ensures
        branch@ == branch_of_trimmed(trimmed@),
        branch@.len() > 0,
{
    proof {
        reveal_strlit("detached");
    }
    if trimmed.is_empty() {
        "detached".to_owned()
    } else {
        trimmed.to_owned()
    }
}

/// The branch for one run of the command: its trimmed output where it
/// succeeded and wrote a name, `"detached"` where it succeeded and wrote
/// none, `"no-git"` in every other case. Output that is well-formed UTF-8,
/// as a branch name is, is read as the text that it encodes.
pub fn branch_from_output(outcome: &CommandOutcome) -> (branch: String)
    ensures
        branch@ == branch_of(*outcome),
        branch@.len() > 0,
        *outcome matches CommandOutcome::Exited { success, stdout } ==> success && valid_utf8(
            stdout@,
        ) ==> branch@ == branch_of_trimmed(trim_of(decode_utf8(stdout@))),
{
    proof {
        reveal_strlit("no-git");
    }
    match outcome {
        CommandOutcome::Exited { success, stdout } => {
            if *success {
                let text: String = from_utf8_lossy(stdout.as_slice());
                branch_from_trimmed(trim(text.as_str()))
            } else {
                "no-git".to_owned()
            }
        },
        CommandOutcome::NotRun => "no-git".to_owned(),
    }
}

} // verus!
