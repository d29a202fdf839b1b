//! Builds the user turn sent to the inference backend: the task description,
//! a platform hint, and a fixed trailing shebang convention that biases the
//! model towards emitting a plain shell script.

use vstd::prelude::*;

use crate::strutil::{opt_str_view, str_starts_with, trim_quotes, trim_quotes_spec};

verus! {

/// The host platform, as far as the hint distinguishes it.
#[derive(Clone, Copy, Debug, PartialEq, Eq, Structural)]
pub enum Platform {
    MacOs,
    Linux,
    Other,
}

/// The fixed trailing convention of every prompt.
pub open spec fn prompt_suffix_spec() -> Seq<char> {
    ":\n\n#!/usr/bin/env zsh\n"@
}

/// The platform hint: a fixed phrase on macOS, the distribution id on Linux
/// when one is known, a generic Linux phrase otherwise, and nothing on any
/// other platform.
pub open spec fn hint_spec(platform: Platform, distro: Option<Seq<char>>) -> Seq<char> {
    match platform {
        Platform::MacOs => " (on macOS)"@,
        Platform::Linux => match distro {
            Some(d) => " (on "@ + d + " Linux)"@,
            None => " (on Linux)"@,
        },
        Platform::Other => Seq::<char>::empty(),
    }
}

/// A line of an os-release file that carries the distribution id.
pub open spec fn is_id_line(l: Seq<char>) -> bool {
    l.len() >= 3 && l.take(3) == "ID="@
}

/// The identifier an id line carries: what follows the field prefix, with
/// surrounding quote characters stripped.
pub open spec fn id_of_line(l: Seq<char>) -> Seq<char> {
    trim_quotes_spec(l.skip(3))
}

/// The platform hint as a value.
pub fn os_hint(platform: Platform, distro: Option<&str>) -> (r: String)
    ensures
        r@ == hint_spec(platform, opt_str_view(distro)),
{
    match platform {
        Platform::MacOs => String::from_str(" (on macOS)"),
        Platform::Linux => match distro {
            Some(d) => String::from_str(" (on ").concat(d).concat(" Linux)"),
            None => String::from_str(" (on Linux)"),
        },
        Platform::Other => String::new(),
    }
}

/// The distribution id carried by the first id line of an os-release file,
/// if the file holds one.
pub fn parse_distro_id(lines: &Vec<String>) -> (r: Option<String>)
    ensures
        r is Some <==> exists|i: int| 0 <= i < lines@.len() && is_id_line(lines@[i]@),
        r matches Some(d) ==> exists|i: int|
            {
                &&& 0 <= i < lines@.len()
                &&& is_id_line(lines@[i]@)
                &&& (forall|j: int| 0 <= j < i ==> !is_id_line(lines@[j]@))
                &&& d@ == id_of_line(lines@[i]@)
            },
{
    let n = lines.len();
    let mut i: usize = 0;
    while i < n
        invariant
            0 <= i <= n,
            n == lines@.len(),
            forall|j: int| 0 <= j < i ==> !is_id_line(lines@[j]@),
        decreases n - i,
    {
        proof {
            reveal_strlit("ID=");
        }
        let line = &lines[i];
        if str_starts_with(line.as_str(), "ID=") {
            let len = line.as_str().unicode_len();
            let rest = line.as_str().substring_char(3, len);
            proof {
                assert(rest@ =~= line@.skip(3));
            }
            return Some(trim_quotes(rest));
        }
        i = i + 1;
    }
    None
}

/// The text sent to the model as the user turn: the task description, the
/// platform hint, and the fixed trailing shebang convention. Whatever the
/// platform branch, the result ends with that convention.
pub fn build_prompt(prompt: &str, platform: Platform, distro: Option<&str>) -> (r: String)
    ensures
        r@ == prompt@ + hint_spec(platform, opt_str_view(distro)) + prompt_suffix_spec(),
        r@.len() >= prompt_suffix_spec().len(),
        r@.skip(r@.len() - prompt_suffix_spec().len()) == prompt_suffix_spec(),
{
    let hint = os_hint(platform, distro);
    let r = String::from_str(prompt).concat(hint.as_str()).concat(":\n\n#!/usr/bin/env zsh\n");
    proof {
        let head = prompt@ + hint_spec(platform, opt_str_view(distro));
        assert(r@ =~= head + prompt_suffix_spec());
        assert((head + prompt_suffix_spec()).skip(head.len() as int) =~= prompt_suffix_spec());
    }
    r
}

/// On Linux with a known distribution id, the platform hint carries that id
/// verbatim: it stands at a fixed offset inside the hint.
pub proof fn lemma_hint_contains_distro(d: Seq<char>)
    ensures
        hint_spec(Platform::Linux, Some(d)).len() == d.len() + 12,
        hint_spec(Platform::Linux, Some(d)).subrange(5, 5 + d.len() as int) == d,
{
    reveal_strlit(" (on ");
    reveal_strlit(" Linux)");
    let h = hint_spec(Platform::Linux, Some(d));
    assert(h.subrange(5, 5 + d.len() as int) =~= d);
}

} // verus!
