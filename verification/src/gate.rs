//! The execute-confirm safety gate: how one line typed at the confirmation
//! prompt is read, how the run/no-run decision falls, and how a subprocess
//! outcome maps to the process exit code and to what is echoed.

use vstd::prelude::*;

use crate::strutil::{trim, trim_spec};

verus! {

/// An upper-case ASCII letter lowered; any other character unchanged.
pub open spec fn lower_char_spec(c: char) -> char {
    if 65 <= c as u32 && c as u32 <= 90 {
        (((c as u32) + 32) as u32) as char
    } else {
        c
    }
}

/// A text with its upper-case ASCII letters lowered.
pub open spec fn ascii_lower_spec(s: Seq<char>) -> Seq<char> {
    s.map_values(|c: char| lower_char_spec(c))
}

/// An upper-case ASCII letter lowered; any other character unchanged.
fn lower_char(c: char) -> (r: char)
    ensures
        r == lower_char_spec(c),
{
    let u = c as u32;
    if 65 <= u && u <= 90 {
        ((u + 32) as u8) as char
    } else {
        c
    }
}

/// Whether `s` equals `key` up to ASCII case, `key` given in lower case.
fn eq_ignore_ascii_case(s: &str, key: &str) -> (r: bool)
    ensures
        r == (ascii_lower_spec(s@) == key@),
{
    let slen = s.unicode_len();
    let klen = key.unicode_len();
    if slen != klen {
        return false;
    }
    let mut i: usize = 0;
    while i < slen
        invariant
            0 <= i <= slen,
            slen == s@.len(),
            slen == key@.len(),
            forall|j: int| 0 <= j < i ==> lower_char_spec(s@[j]) == key@[j],
        decreases slen - i,
    {
        if lower_char(s.get_char(i)) != key.get_char(i) {
            proof {
                assert(ascii_lower_spec(s@)[i as int] != key@[i as int]);
            }
            return false;
        }
        i = i + 1;
    }
    proof {
        assert(ascii_lower_spec(s@) =~= key@);
    }
    true
}

/// How one line typed at the confirmation prompt reads: yes and no in any
/// ASCII case after trimming, an empty line as the default yes, anything
/// else as no valid answer, on which the prompt repeats.
pub open spec fn answer_spec(line: Seq<char>) -> Option<bool> {
    let t = ascii_lower_spec(trim_spec(line));
    if t == "y"@ || t == "yes"@ {
        Some(true)
    } else if t == "n"@ || t == "no"@ {
        Some(false)
    } else if line.len() == 0 {
        Some(true)
    } else {
        None
    }
}

/// Read one line typed at the confirmation prompt.
pub fn interpret_answer(line: &str) -> (r: Option<bool>)
    ensures
        r == answer_spec(line@),
{
    let trimmed = trim(line);
    let t = trimmed.as_str();
    if eq_ignore_ascii_case(t, "y") || eq_ignore_ascii_case(t, "yes") {
        Some(true)
    } else if eq_ignore_ascii_case(t, "n") || eq_ignore_ascii_case(t, "no") {
        Some(false)
    } else if line.unicode_len() == 0 {
        Some(true)
    } else {
        None
    }
}

/// A run is requested either by the force flag, which skips the prompt
/// altogether, or by an affirmative answer at the prompt.
pub fn decide(force: bool, confirmed: bool) -> (run: bool)
    ensures
        run == (force || confirmed),
{
    force || confirmed
}

/// What became of the gated execution.
#[derive(Debug, PartialEq, Eq, Structural)]
pub enum ExecOutcome {
    /// The operator declined; nothing ran.
    Declined,
    /// The interpreter could not be spawned.
    SpawnFailed,
    /// The subprocess ran and exited, successfully or not.
    Ran { success: bool },
}

/// Which captured stream is echoed to the operator.
#[derive(Debug, PartialEq, Eq, Structural)]
pub enum Echo {
    Nothing,
    Stdout,
    Stderr,
}

/// The report an execution outcome maps to.
pub struct Report {
    pub exit_code: i32,
    pub echo: Echo,
}

/// A declined run ends quietly with success; a spawn failure is fatal with
/// no output; a finished subprocess echoes its standard output on success
/// and its standard error on failure, which is fatal.
pub fn report(outcome: &ExecOutcome) -> (r: Report)
    ensures
        outcome is Declined ==> r.exit_code == 0 && r.echo is Nothing,
        outcome is SpawnFailed ==> r.exit_code == 1 && r.echo is Nothing,
        (outcome matches ExecOutcome::Ran { success: s } && *s) ==> r.exit_code == 0 && r.echo
            is Stdout,
        (outcome matches ExecOutcome::Ran { success: s } && !*s) ==> r.exit_code == 1 && r.echo
            is Stderr,
{
    match outcome {
        ExecOutcome::Declined => Report { exit_code: 0, echo: Echo::Nothing },
        ExecOutcome::SpawnFailed => Report { exit_code: 1, echo: Echo::Nothing },
        ExecOutcome::Ran { success: true } => Report { exit_code: 0, echo: Echo::Stdout },
        ExecOutcome::Ran { success: false } => Report { exit_code: 1, echo: Echo::Stderr },
    }
}

} // verus!
