//! The grammar of a plan: which lines of a model's answer name a task.
//!
//! A plan is read line by line.  A line, with the white space at its ends
//! removed, names a task when it begins with `"- "` or `"* "`, or when the
//! text before its first `". "` is numeric throughout; the task is what
//! follows that marker.  Every other line is passed over.

use vstd::prelude::*;
use vstd::string::StrSliceExecFns;
use vstd::string::StringExecFns;
use crate::text::{is_numeric, char_is_numeric, to_chars, trim, trim_bounds};

verus! {

/// The models of a sequence of texts, in order.
pub open spec fn texts(items: Seq<String>) -> Seq<Seq<char>> {
    items.map_values(|s: String| s@)
}

/// The length of the first line of `s`: the number of characters before
/// its first line feed, or all of them.
pub open spec fn line_end(s: Seq<char>) -> nat
    decreases s.len(),
{
    if s.len() > 0 && s[0] != '\n' {
        1 + line_end(s.drop_first())
    } else {
        0
    }
}

/// Whether `t` begins with a bullet marker.
pub open spec fn bulleted(t: Seq<char>) -> bool {
    t.len() >= 2 && (t[0] == '-' || t[0] == '*') && t[1] == ' '
}

/// Whether `". "` stands at index `i` of `t`.
pub open spec fn dot_space_at(t: Seq<char>, i: int) -> bool {
    0 <= i && i + 1 < t.len() && t[i] == '.' && t[i + 1] == ' '
}

/// Whether the first `". "` of `t` stands at index `i` and everything
/// before it is numeric.
pub open spec fn numbered_at(t: Seq<char>, i: int) -> bool {
    &&& dot_space_at(t, i)
    &&& forall|j: int| 0 <= j < i ==> !dot_space_at(t, j)
    &&& forall|j: int| 0 <= j < i ==> is_numeric(#[trigger] t[j])
}

/// The task that a trimmed line names, if it names one.
pub open spec fn item_of_trimmed(t: Seq<char>) -> Option<Seq<char>> {
    if bulleted(t) {
        Some(t.skip(2))
    } else if exists|i: int| numbered_at(t, i) {
        Some(t.skip((choose|i: int| numbered_at(t, i)) + 2))
    } else {
        None
    }
}

/// The task that a line names, if it names one.
pub open spec fn plan_item(line: Seq<char>) -> Option<Seq<char>> {
    item_of_trimmed(trim(line))
}

/// The tasks that a plan names, in the order of its lines.
pub open spec fn plan_descriptions(text: Seq<char>) -> Seq<Seq<char>>
    decreases text.len(),
{
    let n = line_end(text);
    let head = match plan_item(text.take(n as int)) {
        Some(d) => seq![d],
        None => Seq::empty(),
    };
    if n >= text.len() {
        head
    } else {
        head + plan_descriptions(text.skip(n as int + 1))
    }
}

/// A run of `k` characters that are no line feed, ended by the end of the
/// text or by a line feed, is the first line.
proof fn lemma_line_end_is(s: Seq<char>, k: nat)
    requires
        k <= s.len(),
        forall|i: int| 0 <= i < k ==> s[i] != '\n',
        k < s.len() ==> s[k as int] == '\n',
    ensures
        line_end(s) == k,
    decreases s.len(),
{
    if k > 0 {
        let rest = s.drop_first();
        lemma_line_end_is(rest, (k - 1) as nat);
    }
}

/// The first `". "` of a text stands at one index only.
proof fn lemma_numbered_at_unique(t: Seq<char>, i: int, j: int)
    requires
        numbered_at(t, i),
        numbered_at(t, j),
    ensures
        i == j,
{
}

/// Where the task named by the trimmed line `chars[a..b]` begins, if the
/// line names one.
fn item_start(chars: &Vec<char>, a: usize, b: usize) -> (start: Option<usize>)
    requires
        a <= b <= chars.len(),
    ensures
        match start {
            Some(d) => a <= d <= b && item_of_trimmed(chars@.subrange(a as int, b as int)) == Some(
                chars@.subrange(d as int, b as int),
            ),
            None => item_of_trimmed(chars@.subrange(a as int, b as int)) is None,
        },
{
    let ghost t = chars@.subrange(a as int, b as int);
    if b - a >= 2 && (chars[a] == '-' || chars[a] == '*') && chars[a + 1] == ' ' {
        return Some(a + 2);
    }
    let mut i: usize = a;
    let mut numeric: bool = true;
    while b - i >= 2
        invariant
            a <= i <= b <= chars.len(),
            t == chars@.subrange(a as int, b as int),
            !bulleted(t),
            forall|j: int| 0 <= j < i - a ==> !dot_space_at(t, j),
            numeric <==> forall|j: int| 0 <= j < i - a ==> is_numeric(#[trigger] t[j]),
        decreases b - i,
    {
        if chars[i] == '.' && chars[i + 1] == ' ' {
            let ghost k = i - a;
            if numeric {
                assert(numbered_at(t, k));
                proof {
                    let c = choose|c: int| numbered_at(t, c);
                    lemma_numbered_at_unique(t, c, k);
                }
                return Some(i + 2);
            } else {
                return None;
            }
        }
        let digit = char_is_numeric(chars[i]);
        assert(t[i - a] == chars@[i as int]);
        numeric = numeric && digit;
        i += 1;
    }
    None
}

/// Reads a plan: the tasks that the lines of `text` name, in order.
pub fn parse_plan_lines(text: &str) -> (tasks: Vec<String>)
    ensures
        texts(tasks@) == plan_descriptions(text@),
{
    let chars = to_chars(text);
    let len = chars.len();
    let mut tasks: Vec<String> = Vec::new();
    let mut pos: usize = 0;
    assert(chars@.skip(0) =~= chars@);
    loop
        invariant_except_break
            pos <= len,
            texts(tasks@) + plan_descriptions(chars@.skip(pos as int)) == plan_descriptions(
                chars@,
            ),
        invariant
            len == chars.len(),
            chars@ == text@,
        ensures
            texts(tasks@) == plan_descriptions(chars@),
        decreases len - pos,
    {
        let ghost rest = chars@.skip(pos as int);
        let mut end: usize = pos;
        while end < len && chars[end] != '\n'
            invariant
                pos <= end <= len,
                len == chars.len(),
                forall|i: int| pos <= i < end ==> chars@[i] != '\n',
            decreases len - end,
        {
            end += 1;
        }
        proof {
            lemma_line_end_is(rest, (end - pos) as nat);
            assert(rest.take(end - pos) =~= chars@.subrange(pos as int, end as int));
        }
        let (a, b) = trim_bounds(&chars, pos, end);
        match item_start(&chars, a, b) {
            Some(d) => {
                let description = String::from_str(text.substring_char(d, b));
                tasks.push(description);
            },
            None => {},
        }
        if end >= len {
            break;
        }
        proof {
            assert(rest.skip(end - pos + 1) =~= chars@.skip(end + 1));
        }
        pos = end + 1;
    }
    tasks
}

} // verus!
