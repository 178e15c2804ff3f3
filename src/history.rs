//! Which history file a shell keeps, and the order in which its lines are
//! offered.

use vstd::prelude::*;
use crate::error::PickerError;
use crate::filter::texts;

verus! {

/// Start of the last `/`-separated segment of `s[..i]`.
pub open spec fn segment_start(s: Seq<char>, i: int) -> int
    decreases i,
{
    if i <= 0 || i > s.len() || s[i - 1] == '/' {
        i
    } else {
        segment_start(s, i - 1)
    }
}

/// The shell's name: what follows the last `/` of its path.
pub open spec fn shell_name(path: Seq<char>) -> Seq<char> {
    path.subrange(segment_start(path, path.len() as int), path.len() as int)
}

/// The history file (relative to the home directory) of a shell, by name.
pub open spec fn history_file_for(name: Seq<char>) -> Option<Seq<char>> {
    if name == "bash"@ {
        Some(".bash_history"@)
    } else if name == "zsh"@ {
        Some(".zsh_history"@)
    } else {
        None
    }
}

proof fn lemma_segment_start_bounds(s: Seq<char>, i: int)
    requires
        0 <= i <= s.len(),
    ensures
        0 <= segment_start(s, i) <= i,
    decreases i,
{
    if i > 0 && s[i - 1] != '/' {
        lemma_segment_start_bounds(s, i - 1);
    }
}

/// The history file of the shell at `shell_path` (the value of `SHELL`):
/// `.bash_history` for bash, `.zsh_history` for zsh, and `UnsupportedShell`
/// for any other.
pub fn history_file_name(shell_path: &str) -> (r: Result<String, PickerError>)
    ensures
        match history_file_for(shell_name(shell_path@)) {
            Some(f) => r is Ok && r->Ok_0@ == f,
            None => r == Err::<String, PickerError>(PickerError::UnsupportedShell),
        },
{
    let n = shell_path.unicode_len();
    let mut i: usize = n;
    while i > 0 && shell_path.get_char(i - 1) != '/'
        invariant
            n == shell_path@.len(),
            i <= n,
            segment_start(shell_path@, i as int) == segment_start(shell_path@, n as int),
        decreases i,
    {
        i = i - 1;
    }
    proof {
        lemma_segment_start_bounds(shell_path@, n as int);
    }
    let name = String::from_str(shell_path.substring_char(i, n));
    let bash = String::from_str("bash");
    let zsh = String::from_str("zsh");
    if name == bash {
        Ok(String::from_str(".bash_history"))
    } else if name == zsh {
        Ok(String::from_str(".zsh_history"))
    } else {
        Err(PickerError::UnsupportedShell)
    }
}

/// The last `count` lines of a history file, most recent first.
pub open spec fn most_recent_first(lines: Seq<Seq<char>>, count: nat) -> Seq<Seq<char>> {
    let n = if count < lines.len() {
        count
    } else {
        lines.len()
    };
    Seq::new(n, |k: int| lines[lines.len() - 1 - k])
}

/// Takes the last `count` of a history file's lines (oldest first in the
/// file) and returns them most recent first.
pub fn recent_first(lines: &Vec<String>, count: usize) -> (r: Vec<String>)
    ensures
        texts(r@) == most_recent_first(texts(lines@), count as nat),
{
    let len = lines.len();
    let n = if count < len {
        count
    } else {
        len
    };
    let mut r: Vec<String> = Vec::new();
    let mut k: usize = 0;
    while k < n
        invariant
            len == lines@.len(),
            n <= len,
            n == count || n == len,
            k <= n,
            r@.len() == k,
            forall|j: int| 0 <= j < k ==> (#[trigger] r@[j])@ == lines@[len - 1 - j]@,
        decreases n - k,
    {
        r.push(lines[len - 1 - k].clone());
        k = k + 1;
    }
    assert(texts(r@) =~= most_recent_first(texts(lines@), count as nat));
    r
}

/// First index at or after `i` that holds a line feed (or the length).
pub open spec fn line_end(s: Seq<char>, i: int) -> int
    decreases s.len() - i,
{
    if i < 0 || i >= s.len() || s[i] == '\n' {
        i
    } else {
        line_end(s, i + 1)
    }
}

/// The lines of `s[i..]`: split at each line feed, a carriage return just
/// before the line feed dropped with it, and no empty line after a final
/// line feed.
pub open spec fn lines_from(s: Seq<char>, i: int) -> Seq<Seq<char>>
    decreases s.len() - i,
{
    let e = line_end(s, i);
    if i < 0 || i >= s.len() || e < i || e > s.len() {
        Seq::empty()
    } else if e == s.len() {
        seq![s.subrange(i, e)]
    } else if e > i && s[e - 1] == '\r' {
        seq![s.subrange(i, e - 1)] + lines_from(s, e + 1)
    } else {
        seq![s.subrange(i, e)] + lines_from(s, e + 1)
    }
}

/// The lines of a text, as `str::lines` splits it.
pub open spec fn lines_of(s: Seq<char>) -> Seq<Seq<char>> {
    lines_from(s, 0)
}

/// Relies on `str::lines`: lines end at `\n` or `\r\n`, terminators are
/// not part of the lines, and a final line ending is optional.
#[verifier::external_body]
fn split_lines(text: &str) -> (r: Vec<String>)
    ensures
        texts(r@) == lines_of(text@),
{
    text.lines().map(|l| l.to_string()).collect()
}

/// The last `count` lines of a history file's text, most recent first.
pub fn history_lines(text: &str, count: usize) -> (r: Vec<String>)
    ensures
        texts(r@) == most_recent_first(lines_of(text@), count as nat),
{
    let lines = split_lines(text);
    recent_first(&lines, count)
}

} // verus!
