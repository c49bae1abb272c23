//! Request-text handling: the request line, the body, and the
//! identifier segment of a path.
//!
//! The request line is the text before the first line feed, without a
//! trailing carriage return; its first two whitespace-separated tokens
//! are the method and the path. The body is the text after the last
//! blank-line separator (`\r\n\r\n`); a request without one has an
//! empty body. The identifier of a path is its third slash-separated
//! segment, as in `/users/7`.

use vstd::prelude::*;
use crate::text::chars_to_string;

verus! {

/// The whitespace that separates request-line tokens.
pub open spec fn tok_ws(c: char) -> bool {
    c == ' ' || c == '\t' || c == '\r' || c == '\u{b}' || c == '\u{c}'
}

/// The first line feed at or after `i`, or the end of the text.
pub open spec fn spec_find_nl(s: Seq<char>, i: int) -> int
    decreases s.len() - i,
{
    if 0 <= i < s.len() {
        if s[i] == '\n' {
            i
        } else {
            spec_find_nl(s, i + 1)
        }
    } else {
        i
    }
}

/// Where the request line ends: before the first line feed, and before
/// a carriage return that immediately precedes it.
pub open spec fn spec_line_end(s: Seq<char>) -> int {
    let e = spec_find_nl(s, 0);
    if e > 0 && s[e - 1] == '\r' {
        e - 1
    } else {
        e
    }
}

/// The first non-whitespace position in `[i, e)`, or `e`.
pub open spec fn spec_tok_start(s: Seq<char>, i: int, e: int) -> int
    decreases e - i,
{
    if 0 <= i < e && i < s.len() && tok_ws(s[i]) {
        spec_tok_start(s, i + 1, e)
    } else {
        i
    }
}

/// The first whitespace position in `[i, e)`, or `e`.
pub open spec fn spec_tok_end(s: Seq<char>, i: int, e: int) -> int
    decreases e - i,
{
    if 0 <= i < e && i < s.len() && !tok_ws(s[i]) {
        spec_tok_end(s, i + 1, e)
    } else {
        i
    }
}

/// The method and path of a request: the first two tokens of its
/// request line, if it has two.
pub open spec fn spec_parse_request(s: Seq<char>) -> Option<(Seq<char>, Seq<char>)> {
    let e = spec_line_end(s);
    let a = spec_tok_start(s, 0, e);
    if a >= e {
        None
    } else {
        let b = spec_tok_end(s, a, e);
        let c = spec_tok_start(s, b, e);
        if c >= e {
            None
        } else {
            let d = spec_tok_end(s, c, e);
            Some((s.subrange(a, b), s.subrange(c, d)))
        }
    }
}

/// The blank-line separator between headers and body.
pub open spec fn sep_seq() -> Seq<char> {
    seq!['\r', '\n', '\r', '\n']
}

/// Scans for separators from `i`; `cur` is the body start seen so far.
pub open spec fn spec_body_from(s: Seq<char>, i: int, cur: int) -> int
    decreases s.len() - i,
{
    if i < 0 || i + 4 > s.len() {
        cur
    } else if s.subrange(i, i + 4) == sep_seq() {
        spec_body_from(s, i + 4, i + 4)
    } else {
        spec_body_from(s, i + 1, cur)
    }
}

/// Where the body starts: after the last separator, or at the end of
/// the text when there is none (an empty body).
pub open spec fn spec_body_start(s: Seq<char>) -> int {
    spec_body_from(s, 0, s.len() as int)
}

/// The first slash at or after `i`, or the end of the path.
pub open spec fn spec_find_slash(p: Seq<char>, i: int) -> int
    decreases p.len() - i,
{
    if 0 <= i < p.len() {
        if p[i] == '/' {
            i
        } else {
            spec_find_slash(p, i + 1)
        }
    } else {
        i
    }
}

/// The character range of a path's identifier: its third
/// slash-separated segment, present when the path holds at least two
/// slashes.
pub open spec fn spec_extract_id(p: Seq<char>) -> Option<(int, int)> {
    let s1 = spec_find_slash(p, 0);
    if s1 >= p.len() {
        None
    } else {
        let s2 = spec_find_slash(p, s1 + 1);
        if s2 >= p.len() {
            None
        } else {
            Some((s2 + 1, spec_find_slash(p, s2 + 1)))
        }
    }
}

/// Finds the first line feed at or after `i`.
#[verifier::loop_isolation(false)]
fn find_nl(s: &Vec<char>, i: usize) -> (r: usize)
    requires
        i <= s@.len(),
    ensures
        r as int == spec_find_nl(s@, i as int),
        i <= r <= s@.len(),
{
    let mut k: usize = i;
    while k < s.len() && s[k] != '\n'
        invariant
            i <= k <= s@.len(),
            spec_find_nl(s@, i as int) == spec_find_nl(s@, k as int),
        decreases s@.len() - k,
    {
        k = k + 1;
    }
    k
}

/// Decides `tok_ws`.
fn is_tok_ws(c: char) -> (r: bool)
    ensures
        r == tok_ws(c),
{
    c == ' ' || c == '\t' || c == '\r' || c == '\u{b}' || c == '\u{c}'
}

/// Finds the start of the next token in `[i, e)`.
#[verifier::loop_isolation(false)]
fn tok_start(s: &Vec<char>, i: usize, e: usize) -> (r: usize)
    requires
        i <= e <= s@.len(),
    ensures
        r as int == spec_tok_start(s@, i as int, e as int),
        i <= r <= e,
{
    let mut k: usize = i;
    while k < e && is_tok_ws(s[k])
        invariant
            i <= k <= e,
            spec_tok_start(s@, i as int, e as int) == spec_tok_start(s@, k as int, e as int),
        decreases e - k,
    {
        k = k + 1;
    }
    k
}

/// Finds the end of the token starting at `i`, within `[i, e)`.
#[verifier::loop_isolation(false)]
fn tok_end(s: &Vec<char>, i: usize, e: usize) -> (r: usize)
    requires
        i <= e <= s@.len(),
    ensures
        r as int == spec_tok_end(s@, i as int, e as int),
        i <= r <= e,
{
    let mut k: usize = i;
    while k < e && !is_tok_ws(s[k])
        invariant
            i <= k <= e,
            spec_tok_end(s@, i as int, e as int) == spec_tok_end(s@, k as int, e as int),
        decreases e - k,
    {
        k = k + 1;
    }
    k
}

/// Parses the request line into its method and path, if it has both.
pub fn parse_request(s: &Vec<char>) -> (r: Option<(String, String)>)
    ensures
        match spec_parse_request(s@) {
            Some((m, p)) => r matches Some((rm, rp)) && rm@ == m && rp@ == p,
            None => r is None,
        },
{
    let nl: usize = find_nl(s, 0);
    let e: usize = if nl > 0 && s[nl - 1] == '\r' {
        nl - 1
    } else {
        nl
    };
    let a: usize = tok_start(s, 0, e);
    if a >= e {
        return None;
    }
    let b: usize = tok_end(s, a, e);
    let c: usize = tok_start(s, b, e);
    if c >= e {
        return None;
    }
    let d: usize = tok_end(s, c, e);
    Some((chars_to_string(s, a, b), chars_to_string(s, c, d)))
}

/// Finds where the body starts: after the last blank-line separator.
#[verifier::loop_isolation(false)]
pub fn body_start(s: &Vec<char>) -> (r: usize)
    ensures
        r as int == spec_body_start(s@),
        r <= s@.len(),
{
    let mut i: usize = 0;
    let mut cur: usize = s.len();
    while s.len() >= 4 && i <= s.len() - 4
        invariant
            i <= s@.len(),
            cur <= s@.len(),
            spec_body_start(s@) == spec_body_from(s@, i as int, cur as int),
        decreases s@.len() - i,
    {
        if s[i] == '\r' && s[i + 1] == '\n' && s[i + 2] == '\r' && s[i + 3] == '\n' {
            proof {
                assert(s@.subrange(i as int, i as int + 4) =~= sep_seq());
            }
            i = i + 4;
            cur = i;
        } else {
            proof {
                let sub = s@.subrange(i as int, i as int + 4);
                if sub == sep_seq() {
                    assert(sub[0] == '\r');
                    assert(sub[1] == '\n');
                    assert(sub[2] == '\r');
                    assert(sub[3] == '\n');
                }
            }
            i = i + 1;
        }
    }
    cur
}

/// Finds the first slash at or after `i`.
#[verifier::loop_isolation(false)]
fn find_slash(p: &Vec<char>, i: usize) -> (r: usize)
    requires
        i <= p@.len(),
    ensures
        r as int == spec_find_slash(p@, i as int),
        i <= r <= p@.len(),
{
    let mut k: usize = i;
    while k < p.len() && p[k] != '/'
        invariant
            i <= k <= p@.len(),
            spec_find_slash(p@, i as int) == spec_find_slash(p@, k as int),
        decreases p@.len() - k,
    {
        k = k + 1;
    }
    k
}

/// Extracts the character range of the path's identifier segment.
pub fn extract_id(p: &Vec<char>) -> (r: Option<(usize, usize)>)
    ensures
        match spec_extract_id(p@) {
            Some((a, b)) => r matches Some((ra, rb)) && ra as int == a && rb as int == b
                && ra <= rb <= p@.len(),
            None => r is None,
        },
{
    let s1: usize = find_slash(p, 0);
    if s1 >= p.len() {
        return None;
    }
    let s2: usize = find_slash(p, s1 + 1);
    if s2 >= p.len() {
        return None;
    }
    let s3: usize = find_slash(p, s2 + 1);
    Some((s2 + 1, s3))
}

} // verus!
