use vstd::prelude::*;

use crate::text::{chars_of, string_of};

verus! {

/// Characters kept as they are in a directory-name prefix.
pub open spec fn keeps_char(c: char) -> bool {
    ('a' <= c <= 'z') || ('A' <= c <= 'Z') || ('0' <= c <= '9') || c == '-' || c == '_' || c == '.'
}

pub open spec fn sanitize_char(c: char) -> char {
    if keeps_char(c) {
        c
    } else {
        '_'
    }
}

/// The name used when nothing usable is left of the application's name.
pub open spec fn fallback_component() -> Seq<char> {
    seq!['a', 'x', 'o', 'u', 'p', 'd', 'a', 't', 'e', 'r']
}

/// The text between the sanitized name and the random part of a staging directory.
pub open spec fn prefix_suffix() -> Seq<char> {
    seq!['-', 'a', 'x', 'o', 'u', 'p', 'd', 'a', 't', 'e', '-']
}

/// Every character of `s` is a dot (true of the empty sequence).
pub open spec fn all_dots(s: Seq<char>) -> bool {
    forall|i: int| 0 <= i < s.len() ==> s[i] == '.'
}

/// `name` with every character other than ASCII letters, digits, `-`, `_` and
/// `.` replaced by `_`; an empty or all-dot result becomes the fallback name.
pub open spec fn sanitized(name: Seq<char>) -> Seq<char> {
    let m = name.map_values(|c: char| sanitize_char(c));
    if m.len() == 0 || all_dots(m) {
        fallback_component()
    } else {
        m
    }
}

fn keeps(c: char) -> (r: bool)
    ensures
        r == keeps_char(c),
{
    ('a' <= c && c <= 'z') || ('A' <= c && c <= 'Z') || ('0' <= c && c <= '9') || c == '-' || c
        == '_' || c == '.'
}

fn sanitized_chars(parent_name: &str) -> (r: Vec<char>)
    ensures
        r@ == sanitized(parent_name@),
{
    let v = chars_of(parent_name);
    let mut out: Vec<char> = Vec::new();
    let mut dots = true;
    let mut i: usize = 0;
    while i < v.len()
        invariant
            i <= v.len(),
            v@ == parent_name@,
            out@ == v@.take(i as int).map_values(|c: char| sanitize_char(c)),
            dots == all_dots(out@),
        decreases v.len() - i,
    {
        let c = v[i];
        let d = if keeps(c) { c } else { '_' };
        let ghost before_push = out@;
        let ghost was_dots = dots;
        out.push(d);
        dots = dots && d == '.';
        proof {
            assert(out@ == before_push.push(d));
            assert(was_dots == all_dots(before_push));
            if all_dots(out@) {
                assert(out@[before_push.len() as int] == d);
                assert forall|j: int| 0 <= j < before_push.len() implies before_push[j] == '.' by {
                    assert(out@[j] == before_push[j]);
                }
            }
            if dots {
                assert forall|j: int| 0 <= j < out@.len() implies out@[j] == '.' by {
                    if j < before_push.len() {
                        assert(out@[j] == before_push[j]);
                    }
                }
            }
        }
        assert(v@.take(i + 1).map_values(|c: char| sanitize_char(c)) =~= v@.take(i as int).map_values(
            |c: char| sanitize_char(c),
        ).push(d));
        i = i + 1;
    }
    assert(v@.take(v.len() as int) =~= v@);
    if out.len() == 0 || dots {
        let fb: Vec<char> = vec!['a', 'x', 'o', 'u', 'p', 'd', 'a', 't', 'e', 'r'];
        assert(fb@ =~= fallback_component());
        fb
    } else {
        out
    }
}

/// The application's name made safe for use in a directory name.
pub fn sanitized_parent_component(parent_name: &str) -> (r: String)
    ensures
        r@ == sanitized(parent_name@),
{
    let v = sanitized_chars(parent_name);
    string_of(&v)
}

/// The prefix of a staging directory's name: the sanitized name, then `-axoupdate-`.
pub fn tempdir_name_prefix(parent_name: &str) -> (r: String)
    ensures
        r@ == sanitized(parent_name@) + prefix_suffix(),
{
    let mut v = sanitized_chars(parent_name);
    let mut tail: Vec<char> = vec!['-', 'a', 'x', 'o', 'u', 'p', 'd', 'a', 't', 'e', '-'];
    assert(tail@ =~= prefix_suffix());
    v.append(&mut tail);
    string_of(&v)
}

/// What happened in each step of an execute-permission probe of a directory.
pub struct ProbeOutcome {
    /// The probe script was written into the directory.
    pub written: bool,
    /// It was then marked executable.
    pub made_executable: bool,
    /// It then ran and exited with status zero.
    pub exited_zero: bool,
}

/// The conclusion of a probe.
pub struct ProbeVerdict {
    /// The directory can hold and run an installer.
    pub usable: bool,
    /// Delete the probe script's path (a failed write may still have created the file).
    pub remove_probe: bool,
}

pub open spec fn probe_verdict(o: ProbeOutcome) -> ProbeVerdict {
    ProbeVerdict { usable: o.written && o.made_executable && o.exited_zero, remove_probe: true }
}

/// Judges a probe: the directory is usable only if every step succeeded, and
/// the probe script's path is cleared whatever happened, since even a failed
/// write may have left a file behind.
pub fn can_execute_from_dir(outcome: &ProbeOutcome) -> (r: ProbeVerdict)
    ensures
        r == probe_verdict(*outcome),
{
    ProbeVerdict {
        usable: outcome.written && outcome.made_executable && outcome.exited_zero,
        remove_probe: true,
    }
}

/// The next move in the search for a staging directory.
pub enum StagingAction {
    /// Probe the candidate root at this position.
    Probe(usize),
    /// The candidate at this position passed its probe: use it.
    Use(usize),
    /// Every candidate failed.
    GiveUp,
}

/// Position of the first `true` in `s`, or its length.
pub open spec fn first_true(s: Seq<bool>) -> nat
    decreases s.len(),
{
    if s.len() == 0 {
        0
    } else if s[0] {
        0
    } else {
        1 + first_true(s.drop_first())
    }
}

/// Candidates are probed in order; the first usable one wins, and the search
/// fails only after all `candidates` were probed.
pub open spec fn staging_action(results: Seq<bool>, candidates: nat) -> StagingAction {
    if first_true(results) < results.len() {
        StagingAction::Use(first_true(results) as usize)
    } else if results.len() < candidates {
        StagingAction::Probe(results.len() as usize)
    } else {
        StagingAction::GiveUp
    }
}

proof fn lemma_first_true(s: Seq<bool>, k: int)
    requires
        0 <= k <= s.len(),
        forall|j: int| 0 <= j < k ==> !s[j],
        k == s.len() || s[k],
    ensures
        first_true(s) == k,
    decreases k,
{
    if k > 0 {
        lemma_first_true(s.drop_first(), k - 1);
    }
}

/// Given the probe results so far (in the order of the candidate roots, the
/// process-wide temporary directory last), says what to do next.
pub fn next_staging_action(results: &Vec<bool>, candidates: usize) -> (r: StagingAction)
    ensures
        r == staging_action(results@, candidates as nat),
{
    let mut i: usize = 0;
    while i < results.len() && !results[i]
        invariant
            i <= results.len(),
            forall|j: int| 0 <= j < i ==> !results@[j],
        decreases results.len() - i,
    {
        i = i + 1;
    }
    proof {
        lemma_first_true(results@, i as int);
    }
    if i < results.len() {
        StagingAction::Use(i)
    } else if results.len() < candidates {
        StagingAction::Probe(results.len())
    } else {
        StagingAction::GiveUp
    }
}

/// When the first probed roots all fail, the search moves on to the next
/// candidate, up to the last one (the temporary-directory fallback); it never
/// gives up while a candidate is left.
pub proof fn staging_falls_back(results: Seq<bool>, candidates: nat)
    requires
        forall|i: int| 0 <= i < results.len() ==> !results[i],
        results.len() < candidates,
    ensures
        staging_action(results, candidates) == StagingAction::Probe(results.len() as usize),
{
    lemma_first_true(results, results.len() as int);
}

/// A probe never leaves its script behind: the verdict asks for the script's
/// removal whatever happened, whether the directory proved usable or not.
pub proof fn probe_cleans_up(o: ProbeOutcome)
    ensures
        probe_verdict(o).remove_probe,
{
}

/// The runtime directory to try first: the platform's own, else the per-user
/// fallback path, but only when the runtime variable is unset and that path
/// already is a directory.
pub fn runtime_dir_with_unix_fallback(
    reported: Option<String>,
    runtime_var_set: bool,
    fallback: String,
    fallback_is_dir: bool,
) -> (r: Option<String>)
    ensures
        reported is Some ==> r == reported,
        reported is None ==> (r is Some <==> (!runtime_var_set && fallback_is_dir)),
        reported is None && r is Some ==> r == Some(fallback),
{
    match reported {
        Some(d) => Some(d),
        None => {
            if !runtime_var_set && fallback_is_dir {
                Some(fallback)
            } else {
                None
            }
        },
    }
}

} // verus!
