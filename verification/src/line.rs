//! The line that is shown.

use vstd::prelude::*;
use vstd::string::StringExecFns;
use crate::branch::no_git;
use crate::branch::trim;
use crate::branch::trim_of;
use crate::path::dir_name;
use crate::path::file_name_of;
use crate::path::name_or_path;

verus! {

/// The character for the digit `d`.
pub open spec fn digit(d: nat) -> char {
    if d == 0 {
        '0'
    } else if d == 1 {
        '1'
    } else if d == 2 {
        '2'
    } else if d == 3 {
        '3'
    } else if d == 4 {
        '4'
    } else if d == 5 {
        '5'
    } else if d == 6 {
        '6'
    } else if d == 7 {
        '7'
    } else if d == 8 {
        '8'
    } else {
        '9'
    }
}

/// `n` in decimal digits, without leading zeros.
pub open spec fn decimal(n: nat) -> Seq<char>
    decreases n,
{
    if n < 10 {
        seq![digit(n)]
    } else {
        decimal(n / 10) + seq![digit(n % 10)]
    }
}

/// The text between two fields of the line.
pub open spec fn separator() -> Seq<char> {
    " ◦ "@
}

/// The line for a model, the name of a directory, a percentage and a
/// branch: the four fields in that order, the percentage followed by `%`,
/// with the separator between each two.
pub open spec fn line_of(model: Seq<char>, name: Seq<char>, pct: nat, branch: Seq<char>) -> Seq<
    char,
> {
    model + separator() + name + separator() + decimal(pct) + seq!['%'] + separator() + branch
}

fn digit_text(d: u32) -> (text: &'static str)
    requires
        d < 10,
    ensures
        text@ == seq![digit(d as nat)],
{
    let text: &'static str = if d == 0 {
        proof {
            reveal_strlit("0");
        }
        "0"
    } else if d == 1 {
        proof {
            reveal_strlit("1");
        }
        "1"
    } else if d == 2 {
        proof {
            reveal_strlit("2");
        }
        "2"
    } else if d == 3 {
        proof {
            reveal_strlit("3");
        }
        "3"
    } else if d == 4 {
        proof {
            reveal_strlit("4");
        }
        "4"
    } else if d == 5 {
        proof {
            reveal_strlit("5");
        }
        "5"
    } else if d == 6 {
        proof {
            reveal_strlit("6");
        }
        "6"
    } else if d == 7 {
        proof {
            reveal_strlit("7");
        }
        "7"
    } else if d == 8 {
        proof {
            reveal_strlit("8");
        }
        "8"
    } else {
        proof {
            reveal_strlit("9");
        }
        "9"
    };
    assert(text@ =~= seq![digit(d as nat)]);
    text
}

/// `n` written in decimal digits.
pub fn decimal_text(n: u32) -> (text: String)
    ensures
        text@ == decimal(n as nat),
{
    let mut text: String = String::from_str(digit_text(n % 10));
    let mut rest: u32 = n / 10;
    while rest > 0
        invariant
            rest > 0 ==> decimal(n as nat) == decimal(rest as nat) + text@,
            rest == 0 ==> decimal(n as nat) == text@,
        decreases rest,
    {
        let mut longer: String = String::from_str(digit_text(rest % 10));
        longer.append(text.as_str());
        proof {
            let d = seq![digit((rest % 10) as nat)];
            assert(longer@ == d + text@);
            if rest >= 10 {
                assert(decimal(rest as nat) + text@ =~= decimal((rest / 10) as nat) + (d + text@));
            } else {
                assert(decimal(rest as nat) + text@ =~= d + text@);
            }
        }
        text = longer;
        rest = rest / 10;
    }
    text
}

/// Whether `input` holds nothing but white space. For such input nothing
/// is shown at all.
pub fn is_blank(input: &str) -> (blank: bool)
    ensures
        blank == (trim_of(input@).len() == 0),
{
    trim(input).is_empty()
}

/// The branch that is shown without asking anyone: `"no-git"` where no
/// directory is given. With a directory the cache is asked, and `None` says
/// so.
pub fn branch_without_dir(current_dir: &str) -> (branch: Option<String>)
    ensures
        current_dir@.len() == 0 ==> branch.is_some() && branch.unwrap()@ == no_git(),
        current_dir@.len() > 0 ==> branch.is_none(),
{
    if current_dir.is_empty() {
        Some("no-git".to_owned())
    } else {
        None
    }
}

/// The line for a model, a directory, a percentage and a branch. The
/// directory is shown by its name alone. The line ends without a line break.
pub fn status_line(model: &str, current_dir: &str, pct: u32, branch: &str) -> (line: String)
    ensures
        line@ == line_of(
            model@,
            name_or_path(file_name_of(current_dir@), current_dir@),
            pct as nat,
            branch@,
        ),
{
    proof {
        reveal_strlit("%");
    }
    let number: String = decimal_text(pct);
    let mut line: String = String::from_str(model);
    line.append(" ◦ ");
    line.append(dir_name(current_dir));
    line.append(" ◦ ");
    line.append(number.as_str());
    line.append("%");
    assert("%"@ =~= seq!['%']);
    line.append(" ◦ ");
    line.append(branch);
    line
}

} // verus!
