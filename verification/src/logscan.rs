//! A shape discipline for raw transaction log lines.
//!
//! The log-context parser walks an invocation stack while it reads the
//! lines: a line that opens an invocation pushes a frame, a success or
//! failure line pops one, and every other line is attached to the frame on
//! top.  Lines outside any frame, or lines whose whitespace the parser
//! would first rewrite, would make it index an empty stack.  The checker
//! here accepts exactly the blocks of lines that keep the stack
//! discipline, and the decoder hands the parser only such blocks.

use vstd::prelude::*;
use vstd::string::StrSliceExecFns;

verus! {

/// A character of the base-58 alphabet (no 0, I, O or l).
pub open spec fn base58_char(c: char) -> bool {
    let x = c as int;
    ||| 49 <= x <= 57
    ||| 65 <= x <= 72
    ||| 74 <= x <= 78
    ||| 80 <= x <= 90
    ||| 97 <= x <= 107
    ||| 109 <= x <= 122
}

/// An ASCII decimal digit.
pub open spec fn digit_char(c: char) -> bool {
    48 <= c as int <= 57
}

/// Printable ASCII with no leading, trailing or doubled spaces: the
/// parser's whitespace normalization leaves such a line unchanged.
pub open spec fn clean_line(s: Seq<char>) -> bool {
    &&& forall|i: int| 0 <= i < s.len() ==> 32 <= (#[trigger] s[i]) as int <= 126
    &&& s.len() > 0 ==> s[0] != ' ' && s[s.len() - 1] != ' '
    &&& forall|i: int| 0 <= i < s.len() - 1 ==> !((#[trigger] s[i]) == ' ' && s[i + 1] == ' ')
}

/// The line starts with `Program ` and has something after it.
pub open spec fn program_prefix(s: Seq<char>) -> bool {
    &&& s.len() > 8
    &&& s[0] == 'P'
    &&& s[1] == 'r'
    &&& s[2] == 'o'
    &&& s[3] == 'g'
    &&& s[4] == 'r'
    &&& s[5] == 'a'
    &&& s[6] == 'm'
    &&& s[7] == ' '
}

/// The first position at or after `i` holding no base-58 character.
pub open spec fn base58_end(s: Seq<char>, i: int) -> int
    decreases s.len() - i,
{
    if 0 <= i < s.len() && base58_char(s[i]) {
        base58_end(s, i + 1)
    } else {
        i
    }
}

/// `Program <id> invoke [<level>]`, with a base-58 id of at least 32
/// characters: the line that opens an invocation frame.
pub open spec fn invoke_line(s: Seq<char>) -> bool {
    let j = base58_end(s, 8);
    &&& program_prefix(s)
    &&& j >= 40
    &&& j + 11 <= s.len()
    &&& s[j] == ' '
    &&& s[j + 1] == 'i'
    &&& s[j + 2] == 'n'
    &&& s[j + 3] == 'v'
    &&& s[j + 4] == 'o'
    &&& s[j + 5] == 'k'
    &&& s[j + 6] == 'e'
    &&& s[j + 7] == ' '
    &&& s[j + 8] == '['
    &&& s[s.len() - 1] == ']'
    &&& forall|k: int| j + 9 <= k < s.len() - 1 ==> digit_char(#[trigger] s[k])
}

/// `Program <id> success`: the line that closes a frame successfully.
pub open spec fn success_line(s: Seq<char>) -> bool {
    let j = base58_end(s, 8);
    &&& program_prefix(s)
    &&& j >= 40
    &&& j + 8 == s.len()
    &&& s[j] == ' '
    &&& s[j + 1] == 's'
    &&& s[j + 2] == 'u'
    &&& s[j + 3] == 'c'
    &&& s[j + 4] == 'c'
    &&& s[j + 5] == 'e'
    &&& s[j + 6] == 's'
    &&& s[j + 7] == 's'
}

/// `Program <id> failed: <error>`: the line that closes a frame with an
/// error.
pub open spec fn failed_line(s: Seq<char>) -> bool {
    let j = base58_end(s, 8);
    &&& program_prefix(s)
    &&& j >= 40
    &&& j + 9 <= s.len()
    &&& s[j] == ' '
    &&& s[j + 1] == 'f'
    &&& s[j + 2] == 'a'
    &&& s[j + 3] == 'i'
    &&& s[j + 4] == 'l'
    &&& s[j + 5] == 'e'
    &&& s[j + 6] == 'd'
    &&& s[j + 7] == ':'
    &&& s[j + 8] == ' '
}

/// A line that pops an invocation frame.
pub open spec fn close_line(s: Seq<char>) -> bool {
    success_line(s) || failed_line(s)
}

/// The stack discipline from position `i` at frame depth `d`: invocation
/// openers push, closers pop a frame that must exist, and every other
/// line needs an open frame to attach to.
pub open spec fn depth_ok(logs: Seq<Seq<char>>, i: int, d: int) -> bool
    decreases logs.len() - i,
{
    if !(0 <= i < logs.len()) {
        true
    } else if invoke_line(logs[i]) {
        depth_ok(logs, i + 1, d + 1)
    } else if close_line(logs[i]) {
        d >= 1 && depth_ok(logs, i + 1, d - 1)
    } else {
        d >= 1 && depth_ok(logs, i + 1, d)
    }
}

/// A block of log lines the log-context parser is safe on: every line
/// clean, and the invocation stack discipline respected throughout.
pub open spec fn logs_well_formed(logs: Seq<Seq<char>>) -> bool {
    &&& forall|i: int| 0 <= i < logs.len() ==> clean_line(#[trigger] logs[i])
    &&& depth_ok(logs, 0, 0)
}

fn is_base58_char(c: char) -> (r: bool)
    ensures
        r == base58_char(c),
{
    let x = c as u32;
    (49 <= x && x <= 57) || (65 <= x && x <= 72) || (74 <= x && x <= 78) || (80 <= x && x <= 90)
        || (97 <= x && x <= 107) || (109 <= x && x <= 122)
}

fn is_clean_line(s: &str) -> (r: bool)
    ensures
        r == clean_line(s@),
{
    let n = s.unicode_len();
    if n == 0 {
        return true;
    }
    if s.get_char(0) == ' ' || s.get_char(n - 1) == ' ' {
        return false;
    }
    let mut i: usize = 0;
    while i < n
        invariant
            n == s@.len(),
            0 < n <= usize::MAX,
            i <= n,
            s@[0] != ' ' && s@[n - 1] != ' ',
            forall|k: int| 0 <= k < i ==> 32 <= (#[trigger] s@[k]) as int <= 126,
            forall|k: int| 0 <= k < i - 1 ==> !((#[trigger] s@[k]) == ' ' && s@[k + 1] == ' '),
        decreases n - i,
    {
        let c = s.get_char(i);
        let x = c as u32;
        if x < 32 || x > 126 {
            return false;
        }
        if i > 0 && c == ' ' && s.get_char(i - 1) == ' ' {
            return false;
        }
        i = i + 1;
    }
    true
}

/// Computes `base58_end(s@, from)`.
fn base58_run_end(s: &str, from: usize) -> (j: usize)
    requires
        from <= s@.len(),
        s@.len() <= usize::MAX,
    ensures
        j == base58_end(s@, from as int),
        from <= j <= s@.len(),
{
    let n = s.unicode_len();
    let mut k: usize = from;
    while k < n && is_base58_char(s.get_char(k))
        invariant
            n == s@.len(),
            from <= k <= n,
            base58_end(s@, from as int) == base58_end(s@, k as int),
        decreases n - k,
    {
        assert(base58_end(s@, k as int) == base58_end(s@, k + 1));
        k = k + 1;
    }
    assert(base58_end(s@, k as int) == k);
    k
}

/// How one log line moves the parser's invocation stack.
#[derive(Clone, Copy, Debug, PartialEq, Eq, Structural)]
pub enum LineKind {
    Opens,
    Closes,
    Attaches,
}

/// What a line is to the parser's stack discipline.
pub open spec fn line_kind(s: Seq<char>) -> LineKind {
    if invoke_line(s) {
        LineKind::Opens
    } else if close_line(s) {
        LineKind::Closes
    } else {
        LineKind::Attaches
    }
}

fn classify_line(s: &str) -> (r: LineKind)
    ensures
        r == line_kind(s@),
{
    let n = s.unicode_len();
    if n <= 8 {
        return LineKind::Attaches;
    }
    if !(s.get_char(0) == 'P' && s.get_char(1) == 'r' && s.get_char(2) == 'o' && s.get_char(3)
        == 'g' && s.get_char(4) == 'r' && s.get_char(5) == 'a' && s.get_char(6) == 'm'
        && s.get_char(7) == ' ') {
        return LineKind::Attaches;
    }
    let j = base58_run_end(s, 8);
    if j < 40 || j >= n {
        return LineKind::Attaches;
    }
    if s.get_char(j) != ' ' {
        return LineKind::Attaches;
    }
    // ` invoke [<level>]`
    if j <= n - 11 && s.get_char(j + 1) == 'i' && s.get_char(j + 2) == 'n' && s.get_char(j + 3)
        == 'v' && s.get_char(j + 4) == 'o' && s.get_char(j + 5) == 'k' && s.get_char(j + 6) == 'e'
        && s.get_char(j + 7) == ' ' && s.get_char(j + 8) == '[' && s.get_char(n - 1) == ']' {
        let mut k: usize = j + 9;
        let mut all_digits: bool = true;
        while k < n - 1
            invariant
                n == s@.len(),
                j + 9 <= k <= n - 1,
                all_digits == (forall|m: int| j + 9 <= m < k ==> digit_char(#[trigger] s@[m])),
            decreases n - 1 - k,
        {
            let c = s.get_char(k);
            let x = c as u32;
            if !(48 <= x && x <= 57) {
                all_digits = false;
            }
            k = k + 1;
        }
        if all_digits {
            return LineKind::Opens;
        }
        return LineKind::Attaches;
    }
    // ` success`
    if j == n - 8 && s.get_char(j + 1) == 's' && s.get_char(j + 2) == 'u' && s.get_char(j + 3)
        == 'c' && s.get_char(j + 4) == 'c' && s.get_char(j + 5) == 'e' && s.get_char(j + 6) == 's'
        && s.get_char(j + 7) == 's' {
        return LineKind::Closes;
    }
    // ` failed: <error>`
    if j <= n - 9 && s.get_char(j + 1) == 'f' && s.get_char(j + 2) == 'a' && s.get_char(j + 3)
        == 'i' && s.get_char(j + 4) == 'l' && s.get_char(j + 5) == 'e' && s.get_char(j + 6) == 'd'
        && s.get_char(j + 7) == ':' && s.get_char(j + 8) == ' ' {
        return LineKind::Closes;
    }
    LineKind::Attaches
}

/// Decides [`logs_well_formed`] for a block of log lines.
pub fn check_logs(logs: &Vec<String>) -> (r: bool)
    ensures
        r == logs_well_formed(logs.deep_view()),
{
    let ghost view = logs.deep_view();
    assert(view.len() == logs@.len());
    let n = logs.len();
    let mut depth: usize = 0;
    let mut i: usize = 0;
    while i < n
        invariant
            view == logs.deep_view(),
            view.len() == logs@.len(),
            n == logs@.len(),
            i <= n,
            depth <= i,
            forall|k: int| 0 <= k < i ==> clean_line(#[trigger] view[k]),
            depth_ok(view, 0, 0) == depth_ok(view, i as int, depth as int),
        decreases n - i,
    {
        assert(view[i as int] == logs@[i as int]@);
        let line = &logs[i];
        if !is_clean_line(line.as_str()) {
            return false;
        }
        let kind = classify_line(line.as_str());
        match kind {
            LineKind::Opens => {
                depth = depth + 1;
            },
            LineKind::Closes => {
                if depth == 0 {
                    assert(!depth_ok(view, i as int, 0));
                    return false;
                }
                depth = depth - 1;
            },
            LineKind::Attaches => {
                if depth == 0 {
                    assert(!depth_ok(view, i as int, 0));
                    return false;
                }
            },
        }
        i = i + 1;
    }
    assert(depth_ok(view, n as int, depth as int));
    true
}

} // verus!
