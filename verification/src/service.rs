//! The texts that service installation writes: the runner script that
//! starts recording, and a unit or task template with its runner filled in.
//! Creating directories, writing the files and calling the service manager
//! is the program's part.
use vstd::prelude::*;
use crate::text::{chars_of, matches_at, matches_at_exec, push_char, push_str};

verus! {

broadcast use vstd::string::group_string_axioms;

/// The mark in a service template where the runner's path goes.
pub const RUNNER_PLACEHOLDER: &'static str = "__PULSAR_RUNNER__";

/// `s` from position `i` on with every occurrence of `p` replaced by `w`,
/// left to right and without overlap (`str::replace`).
pub open spec fn replace_from(s: Seq<char>, p: Seq<char>, w: Seq<char>, i: int) -> Seq<char>
    decreases s.len() - i,
{
    if i < 0 || i >= s.len() {
        Seq::empty()
    } else if p.len() > 0 && matches_at(s, p, i) {
        w + replace_from(s, p, w, i + p.len())
    } else {
        seq![s[i]] + replace_from(s, p, w, i + 1)
    }
}

/// `template` with each runner mark replaced by `runner`.
pub fn fill_template(template: &str, runner: &str) -> (r: String)
    ensures
        r@ == replace_from(template@, RUNNER_PLACEHOLDER@, runner@, 0),
{
    let t = chars_of(template);
    let p = chars_of(RUNNER_PLACEHOLDER);
    let mut out = String::new();
    let mut i: usize = 0;
    while i < t.len()
        invariant
            i <= t.len(),
            t@ == template@,
            p@ == RUNNER_PLACEHOLDER@,
            out@ + replace_from(t@, p@, runner@, i as int) == replace_from(
                t@,
                p@,
                runner@,
                0,
            ),
        decreases t.len() - i,
    {
        if p.len() > 0 && matches_at_exec(&t, &p, i) {
            let ghost before = out@;
            push_str(&mut out, runner);
            assert(before + replace_from(t@, p@, runner@, i as int) == before + (runner@
                + replace_from(t@, p@, runner@, i + p.len())));
            assert(out@ + replace_from(t@, p@, runner@, i + p.len()) =~= before + (runner@
                + replace_from(t@, p@, runner@, i + p.len())));
            i = i + p.len();
        } else {
            let ghost before = out@;
            push_char(&mut out, t[i]);
            assert(out@ + replace_from(t@, p@, runner@, i + 1) =~= before + (seq![t@[i as int]]
                + replace_from(t@, p@, runner@, i + 1)));
            i = i + 1;
        }
    }
    assert(out@ + replace_from(t@, p@, runner@, i as int) =~= out@);
    out
}

/// The POSIX runner script: record every five seconds with the given
/// configuration into the given directory.
pub open spec fn unix_runner_spec(exe: Seq<char>, config: Seq<char>, output: Seq<char>) -> Seq<
    char,
> {
    "#!/usr/bin/env sh\nexec \""@ + exe + "\" --config \""@ + config
        + "\" record --interval 5s --output \""@ + output + "\"\n"@
}

pub fn unix_runner_script(exe: &str, config: &str, output: &str) -> (r: String)
    ensures
        r@ == unix_runner_spec(exe@, config@, output@),
{
    let mut s = String::new();
    push_str(&mut s, "#!/usr/bin/env sh\nexec \"");
    push_str(&mut s, exe);
    push_str(&mut s, "\" --config \"");
    push_str(&mut s, config);
    push_str(&mut s, "\" record --interval 5s --output \"");
    push_str(&mut s, output);
    push_str(&mut s, "\"\n");
    s
}

/// The Windows runner script, with CRLF line ends.
pub open spec fn windows_runner_spec(exe: Seq<char>, config: Seq<char>, output: Seq<char>) -> Seq<
    char,
> {
    "@echo off\r\n\""@ + exe + "\" --config \""@ + config
        + "\" record --interval 5s --output \""@ + output + "\"\r\n"@
}

pub fn windows_runner_script(exe: &str, config: &str, output: &str) -> (r: String)
    ensures
        r@ == windows_runner_spec(exe@, config@, output@),
{
    let mut s = String::new();
    push_str(&mut s, "@echo off\r\n\"");
    push_str(&mut s, exe);
    push_str(&mut s, "\" --config \"");
    push_str(&mut s, config);
    push_str(&mut s, "\" record --interval 5s --output \"");
    push_str(&mut s, output);
    push_str(&mut s, "\"\r\n");
    s
}

} // verus!
