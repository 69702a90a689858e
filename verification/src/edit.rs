//! Launching an interactive editor in the directory a flake reference names.
//!
//! A flake reference is a `/`-separated path whose final segment may carry a
//! `#`-delimited fragment; the working directory is the reference with that
//! fragment (and its `#`) stripped.

use vstd::prelude::*;

use crate::run;
use crate::status::CommandError;

verus! {

/// The index just past the last `/` in `s`, or 0 when `s` has none: where the
/// final segment of the reference begins.
pub open spec fn final_segment_start(s: Seq<char>) -> int
    decreases s.len(),
{
    if s.len() == 0 {
        0
    } else if s[s.len() - 1] == '/' {
        s.len() as int
    } else {
        final_segment_start(s.drop_last())
    }
}

/// The index of the first `#` at or after `from`, or the length of `s` when
/// there is none: where the fragment of the final segment begins.
pub open spec fn fragment_start(s: Seq<char>, from: int) -> int
    recommends
        0 <= from <= s.len(),
    decreases s.len() - from,
{
    if from < 0 || from >= s.len() {
        s.len() as int
    } else if s[from] == '#' {
        from
    } else {
        fragment_start(s, from + 1)
    }
}

/// The working directory a reference names: the reference itself, truncated
/// at the first `#` of its final segment.
pub open spec fn flake_dir_of(s: Seq<char>) -> Seq<char> {
    s.subrange(0, fragment_start(s, final_segment_start(s)))
}

proof fn lemma_final_segment_start_bounds(s: Seq<char>)
    ensures
        0 <= final_segment_start(s) <= s.len(),
    decreases s.len(),
{
    if s.len() != 0 && s[s.len() - 1] != '/' {
        lemma_final_segment_start_bounds(s.drop_last());
    }
}

proof fn lemma_fragment_start_bounds(s: Seq<char>, from: int)
    requires
        0 <= from <= s.len(),
    ensures
        from <= fragment_start(s, from) <= s.len(),
    decreases s.len() - from,
{
    if from < s.len() && s[from] != '#' {
        lemma_fragment_start_bounds(s, from + 1);
    }
}

/// Computes the working directory of a reference: everything up to the first
/// `#` of its final `/`-separated segment.
pub fn flake_dir(flakeref: &String) -> (r: String)
    ensures
        r@ == flake_dir_of(flakeref@),
{
    let s = flakeref.as_str();
    let n = s.unicode_len();
    let ghost view = s@;

    let mut start: usize = 0;
    let mut i: usize = 0;
    while i < n
        invariant
            i <= n,
            n == view.len(),
            view == s@,
            start as int == final_segment_start(view.subrange(0, i as int)),
            start <= i,
        decreases n - i,
    {
        let c = s.get_char(i);
        proof {
            assert(view.subrange(0, i + 1 as int).drop_last() =~= view.subrange(0, i as int));
        }
        if c == '/' {
            start = i + 1;
        }
        i = i + 1;
    }
    proof {
        assert(view.subrange(0, n as int) =~= view);
    }

    let mut cut: usize = n;
    let mut found = false;
    let mut j: usize = start;
    while j < n && !found
        invariant
            start <= j <= n,
            n == view.len(),
            view == s@,
            start as int == final_segment_start(view),
            !found ==> fragment_start(view, start as int) == fragment_start(view, j as int),
            found ==> cut as int == fragment_start(view, start as int),
            !found ==> cut == n,
        decreases n - j + (if found {
            0int
        } else {
            1int
        }),
    {
        if s.get_char(j) == '#' {
            cut = j;
            found = true;
        } else {
            j = j + 1;
        }
    }
    proof {
        lemma_final_segment_start_bounds(view);
        lemma_fragment_start_bounds(view, start as int);
    }

    let dir = s.substring_char(0, cut);
    dir.to_owned()
}

/// Launches the editor program in the directory the reference names, with
/// `.` as its single argument and inherited output streams, and waits for it
/// to exit. The editor's own exit code is not validated; an empty reference
/// is rejected before anything is spawned.
pub fn edit_with(flakeref: String, editor: String) -> (r: Result<(), CommandError>)
    ensures
        flakeref@.len() == 0 <==> (r matches Err(e) && e is Config),
        r matches Err(e) ==> !(e is Exit),
{
    if flakeref.as_str().is_empty() {
        return Err(CommandError::Config);
    }
    let dir = flake_dir(&flakeref);
    let mut args: Vec<String> = Vec::new();
    args.push(editor);
    args.push(".".to_owned());
    run::log_command(&args);
    match run::spawn_in_dir(&args, &dir) {
        Ok(_status) => Ok(()),
        Err(cause) => Err(CommandError::Spawn(cause)),
    }
}

} // verus!
