//! Pulling the first JSON object out of free-form model output.
//!
//! Replies arrive as clean JSON, as a fenced code block, or with prose
//! around the object; each form is tried in turn, and a candidate counts
//! only if it parses.

use vstd::prelude::*;

use crate::errors::AgentError;
use crate::numbers::{append_u64, dec_str};
use crate::payload::{json_parses, parse_json_value};
use vstd::string::StringSliceAdditionalSpecFns;

verus! {

/// The whitespace trimmed from either end of a reply.
pub open spec fn is_space(c: char) -> bool {
    c == ' ' || c == '\t' || c == '\n' || c == '\r'
}

/// `s` with leading and trailing whitespace removed.
pub open spec fn trimmed(s: Seq<char>) -> Seq<char>
    decreases s.len(),
{
    if s.len() == 0 {
        s
    } else if is_space(s[0]) {
        trimmed(s.drop_first())
    } else if is_space(s.last()) {
        trimmed(s.drop_last())
    } else {
        s
    }
}

/// Trimming a sequence yields the subrange between its first and last
/// non-space characters.
proof fn lemma_trimmed_subrange(s: Seq<char>, a: int, b: int)
    requires
        0 <= a <= b <= s.len(),
        forall|j: int| 0 <= j < a ==> is_space(#[trigger] s[j]),
        forall|j: int| b <= j < s.len() ==> is_space(#[trigger] s[j]),
        a < b ==> !is_space(s[a]) && !is_space(s[b - 1]),
    ensures
        trimmed(s) == s.subrange(a, b),
    decreases s.len(),
{
    if a == b {
        assert(forall|j: int| 0 <= j < s.len() ==> is_space(#[trigger] s[j]));
        lemma_trimmed_all_space(s);
        assert(s.subrange(a, b) =~= Seq::<char>::empty());
    } else if a > 0 {
        lemma_trimmed_subrange(s.drop_first(), a - 1, b - 1);
        assert(s.drop_first().subrange(a - 1, b - 1) =~= s.subrange(a, b));
    } else if b < s.len() {
        assert(!is_space(s[0]));
        assert(is_space(s.last()));
        lemma_trimmed_subrange(s.drop_last(), a, b);
        assert(s.drop_last().subrange(a, b) =~= s.subrange(a, b));
    } else {
        assert(s.subrange(0, s.len() as int) =~= s);
    }
}

/// A sequence of nothing but whitespace trims to nothing.
proof fn lemma_trimmed_all_space(s: Seq<char>)
    requires
        forall|j: int| 0 <= j < s.len() ==> is_space(#[trigger] s[j]),
    ensures
        trimmed(s) == Seq::<char>::empty(),
    decreases s.len(),
{
    if s.len() > 0 {
        lemma_trimmed_all_space(s.drop_first());
    } else {
        assert(s =~= Seq::<char>::empty());
    }
}

/// The given string with leading and trailing whitespace removed.
pub fn trim_text<'a>(s: &'a str) -> (r: &'a str)
    ensures
        r@ == trimmed(s@),
{
    let n = s.unicode_len();
    let mut a: usize = 0;
    while a < n && is_space_char(s.get_char(a))
        invariant
            a <= n,
            n == s@.len(),
            forall|j: int| 0 <= j < a ==> is_space(#[trigger] s@[j]),
        decreases n - a,
    {
        a = a + 1;
    }
    let mut b: usize = n;
    while b > a && is_space_char(s.get_char(b - 1))
        invariant
            a <= b <= n,
            n == s@.len(),
            forall|j: int| b <= j < n ==> is_space(#[trigger] s@[j]),
        decreases b,
    {
        b = b - 1;
    }
    proof {
        lemma_trimmed_subrange(s@, a as int, b as int);
    }
    s.substring_char(a, b)
}

/// The exec mirror of `is_space`.
fn is_space_char(c: char) -> (r: bool)
    ensures
        r == is_space(c),
{
    c == ' ' || c == '\t' || c == '\n' || c == '\r'
}

/// The first position at or after `i` where `p` occurs in `s`.
pub open spec fn first_occurrence_from(s: Seq<char>, p: Seq<char>, i: int) -> Option<int>
    decreases s.len() - i + 1,
{
    if i < 0 || i + p.len() > s.len() {
        None
    } else if s.subrange(i, i + p.len()) == p {
        Some(i)
    } else {
        first_occurrence_from(s, p, i + 1)
    }
}

/// The first position where `p` occurs in `s`.
pub open spec fn first_occurrence(s: Seq<char>, p: Seq<char>) -> Option<int> {
    first_occurrence_from(s, p, 0)
}

/// Whether `p` occurs in `s` at exactly position `i`.
fn matches_at(s: &str, p: &str, i: usize) -> (r: bool)
    requires
        i + p@.len() <= s@.len(),
    ensures
        r == (s@.subrange(i as int, i + p@.len()) == p@),
{
    let n = s.unicode_len();
    let m = p.unicode_len();
    let mut j: usize = 0;
    while j < m
        invariant
            j <= m,
            n == s@.len(),
            m == p@.len(),
            i + m <= n,
            forall|k: int| 0 <= k < j ==> s@[i + k] == p@[k],
        decreases m - j,
    {
        if s.get_char(i + j) != p.get_char(j) {
            assert(s@.subrange(i as int, i + p@.len())[j as int] != p@[j as int]);
            return false;
        }
        j = j + 1;
    }
    assert(s@.subrange(i as int, i + p@.len()) =~= p@);
    true
}

/// The position of the first occurrence of `p` in `s`, if there is one.
pub fn find_sub(s: &str, p: &str) -> (r: Option<usize>)
    ensures
        r matches Some(i) ==> first_occurrence(s@, p@) == Some(i as int),
        r is None ==> first_occurrence(s@, p@) is None,
{
    let n = s.unicode_len();
    let m = p.unicode_len();
    if m > n {
        return None;
    }
    if m == 0 {
        assert(s@.subrange(0, 0) =~= p@);
        return Some(0);
    }
    let mut i: usize = 0;
    while i <= n - m
        invariant
            i <= n - m + 1,
            1 <= m <= n,
            n == s@.len(),
            m == p@.len(),
            first_occurrence(s@, p@) == first_occurrence_from(s@, p@, i as int),
        decreases n - m + 1 - i,
    {
        if matches_at(s, p, i) {
            return Some(i);
        }
        proof {
            assert(first_occurrence_from(s@, p@, i as int) == first_occurrence_from(
                s@,
                p@,
                i + 1 as int,
            ));
        }
        i = i + 1;
    }
    None
}

/// Where a pattern is found, it fits inside the text and matches there.
proof fn lemma_first_occurrence_bounds(s: Seq<char>, p: Seq<char>, i: int)
    requires
        0 <= i,
        first_occurrence_from(s, p, i) is Some,
    ensures
        i <= first_occurrence_from(s, p, i)->0,
        first_occurrence_from(s, p, i)->0 + p.len() <= s.len(),
        s.subrange(
            first_occurrence_from(s, p, i)->0,
            first_occurrence_from(s, p, i)->0 + p.len(),
        ) == p,
    decreases s.len() - i + 1,
{
    if i + p.len() <= s.len() && s.subrange(i, i + p.len()) != p {
        lemma_first_occurrence_bounds(s, p, i + 1);
    }
}

/// The trimmed body of the first fenced block opened by `m` and closed by
/// a later fence, if both fences stand in `s`.
pub open spec fn fenced_block(s: Seq<char>, m: Seq<char>) -> Option<Seq<char>> {
    match first_occurrence(s, m) {
        Some(i) => {
            let rest = s.skip(i + m.len());
            match first_occurrence(rest, "```"@) {
                Some(e) => Some(trimmed(rest.take(e))),
                None => None,
            }
        },
        None => None,
    }
}

/// The block the markdown form of a reply carries: the first fence that
/// opens with a known marker and closes, tried in marker order.
pub open spec fn marker_block(s: Seq<char>) -> Option<Seq<char>> {
    match fenced_block(s, "```json\n"@) {
        Some(b) => Some(b),
        None => match fenced_block(s, "```json\r\n"@) {
            Some(b) => Some(b),
            None => match fenced_block(s, "```\n"@) {
                Some(b) => Some(b),
                None => fenced_block(s, "```\r\n"@),
            },
        },
    }
}

/// The body of the first complete fenced block opened by `marker`.
fn try_fenced_block(s: &str, marker: &str) -> (r: Option<String>)
    ensures
        r matches Some(v) ==> fenced_block(s@, marker@) == Some(v@),
        r is None ==> fenced_block(s@, marker@) is None,
{
    match find_sub(s, marker) {
        None => None,
        Some(i) => {
            proof {
                lemma_first_occurrence_bounds(s@, marker@, 0);
            }
            let n = s.unicode_len();
            let body_start = i + marker.unicode_len();
            let rest = s.substring_char(body_start, n);
            proof {
                assert(rest@ =~= s@.skip(i + marker@.len()));
            }
            match find_sub(rest, "```") {
                None => None,
                Some(e) => {
                    proof {
                        lemma_first_occurrence_bounds(rest@, "```"@, 0);
                    }
                    let body = rest.substring_char(0, e);
                    proof {
                        assert(body@ =~= rest@.take(e as int));
                    }
                    Some(String::from_str(trim_text(body)))
                },
            }
        },
    }
}

/// The trimmed body of the first complete fenced code block, under any of
/// the known fence markers.
pub fn extract_from_markdown_block(text: &str) -> (r: Option<String>)
    ensures
        r matches Some(v) ==> marker_block(text@) == Some(v@),
        r is None ==> marker_block(text@) is None,
{
    match try_fenced_block(text, "```json\n") {
        Some(b) => Some(b),
        None => match try_fenced_block(text, "```json\r\n") {
            Some(b) => Some(b),
            None => match try_fenced_block(text, "```\n") {
                Some(b) => Some(b),
                None => try_fenced_block(text, "```\r\n"),
            },
        },
    }
}

/// One step of the brace scanner: at position `i` with the given depth,
/// recorded start, in-string flag and pending escape, the bounds of the
/// first balanced top-level object, if the rest of `s` completes one.
pub open spec fn brace_scan(
    s: Seq<char>,
    i: int,
    depth: int,
    start: Option<int>,
    in_str: bool,
    esc: bool,
) -> Option<(int, int)>
    decreases s.len() - i,
{
    if i < 0 || i >= s.len() {
        None
    } else if esc {
        brace_scan(s, i + 1, depth, start, in_str, false)
    } else if s[i] == '\\' && in_str {
        brace_scan(s, i + 1, depth, start, in_str, true)
    } else if s[i] == '"' {
        brace_scan(s, i + 1, depth, start, !in_str, esc)
    } else if s[i] == '{' && !in_str {
        if depth == 0 {
            brace_scan(s, i + 1, depth + 1, Some(i), in_str, esc)
        } else {
            brace_scan(s, i + 1, depth + 1, start, in_str, esc)
        }
    } else if s[i] == '}' && !in_str {
        if depth - 1 == 0 && start is Some {
            Some((start->0, i))
        } else {
            brace_scan(s, i + 1, depth - 1, start, in_str, esc)
        }
    } else {
        brace_scan(s, i + 1, depth, start, in_str, esc)
    }
}

/// The first balanced `{ ... }` outside string literals, if any.
pub open spec fn first_object(s: Seq<char>) -> Option<Seq<char>> {
    match brace_scan(s, 0, 0, None, false, false) {
        Some((a, b)) => Some(s.subrange(a, b + 1)),
        None => None,
    }
}

/// The view of a recorded start position.
spec fn start_view(o: Option<usize>) -> Option<int> {
    match o {
        Some(a) => Some(a as int),
        None => None,
    }
}

/// The first balanced `{ ... }` in `text`, braces inside string literals
/// and escaped characters ignored.
pub fn extract_first_object(text: &str) -> (r: Option<String>)
    ensures
        r matches Some(v) ==> first_object(text@) == Some(v@),
        r is None ==> first_object(text@) is None,
{
    let n = text.unicode_len();
    let mut i: usize = 0;
    let mut depth: i128 = 0;
    let mut start: Option<usize> = None;
    let mut in_str = false;
    let mut esc = false;
    while i < n
        invariant
            i <= n,
            n == text@.len(),
            -(i as int) <= depth <= i as int,
            start matches Some(a) ==> a < i,
            brace_scan(text@, 0, 0, None, false, false) == brace_scan(
                text@,
                i as int,
                depth as int,
                start_view(start),
                in_str,
                esc,
            ),
        decreases n - i,
    {
        let ghost d0 = depth as int;
        let ghost st0 = start_view(start);
        let ghost in0 = in_str;
        let ghost e0 = esc;
        let c = text.get_char(i);
        if esc {
            esc = false;
        } else if c == '\\' && in_str {
            esc = true;
        } else if c == '"' {
            in_str = !in_str;
        } else if c == '{' && !in_str {
            if depth == 0 {
                start = Some(i);
            }
            depth = depth + 1;
        } else if c == '}' && !in_str {
            depth = depth - 1;
            if depth == 0 {
                match start {
                    Some(a) => {
                        proof {
                            assert(brace_scan(text@, i as int, d0, st0, in0, e0) == Some(
                                (a as int, i as int),
                            ));
                        }
                        let piece = text.substring_char(a, i + 1);
                        return Some(String::from_str(piece));
                    },
                    None => {
                    },
                }
            }
        }
        proof {
            assert(brace_scan(text@, i as int, d0, st0, in0, e0) == brace_scan(
                text@,
                i + 1 as int,
                depth as int,
                start_view(start),
                in_str,
                esc,
            ));
        }
        i = i + 1;
    }
    None
}

/// What pulling a JSON object out of a reply yields: the whole trimmed
/// reply if it opens with a brace and parses; else the first complete
/// fenced block, if it parses; else the first balanced object, if it
/// parses; else nothing.
pub open spec fn extract_json_spec(s: Seq<char>) -> Option<Seq<char>> {
    let t = trimmed(s);
    if t.len() > 0 && t[0] == '{' && json_parses(t) {
        Some(t)
    } else if marker_block(t) is Some && json_parses(marker_block(t)->0) {
        Some(marker_block(t)->0)
    } else if first_object(t) is Some && json_parses(first_object(t)->0) {
        Some(first_object(t)->0)
    } else {
        None
    }
}

/// Pulls the first JSON object out of `text`, returning it exactly when
/// one of the three forms yields text that parses; the error carries the
/// reply's byte length.
pub fn extract_json(text: &str) -> (r: Result<String, AgentError>)
    ensures
        r matches Ok(v) ==> extract_json_spec(text@) == Some(v@),
        r matches Err(e) ==> extract_json_spec(text@) is None && (e matches AgentError::Parse(m)
            && m@ == "No valid JSON object found in response (length="@ + dec_str(
            s_byte_len(text),
        ) + ")"@),
{
    let t = trim_text(text);
    if !t.is_empty() && t.get_char(0) == '{' && parse_json_value(t).is_some() {
        return Ok(String::from_str(t));
    }
    if let Some(block) = extract_from_markdown_block(t) {
        if parse_json_value(block.as_str()).is_some() {
            return Ok(block);
        }
    }
    if let Some(object) = extract_first_object(t) {
        if parse_json_value(object.as_str()).is_some() {
            return Ok(object);
        }
    }
    let mut msg = String::from_str("No valid JSON object found in response (length=");
    append_u64(&mut msg, text.len() as u64);
    msg.push(')');
    proof {
        reveal_strlit(")");
        assert(msg@ =~= "No valid JSON object found in response (length="@ + dec_str(
            s_byte_len(text),
        ) + ")"@);
    }
    Err(AgentError::Parse(msg))
}

/// The byte length of a string, as its UTF-8 encoding measures it.
pub open spec fn s_byte_len(s: &str) -> nat {
    (s.spec_bytes().len() as usize) as nat
}

} // verus!
