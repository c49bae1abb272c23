//! The record body format: a JSON object with a required `name` and
//! `email` (strings) and an optional `id` (integer or null).
//!
//! Parsing and rendering are written here directly, against a spec-level
//! grammar. The accepted texts are JSON objects whose keys are exactly
//! `name`, `email` and `id`, each at most once, in any order; string
//! values support the two-character escapes (`\"`, `\\`, `\/`, `\b`,
//! `\f`, `\n`, `\r`, `\t`); integers follow the JSON form (no leading
//! zeros) and must fit a signed 32-bit value. Rendering escapes `"`,
//! `\` and every control character, the latter as `\u00XX` where no
//! short escape exists.

use vstd::prelude::*;
use crate::User;
use crate::UserV;
use crate::num::digit_val;
use crate::num::digits_val;
use crate::num::is_digit;
use crate::num::push_i32_dec;
use crate::num::spec_i32_str;
use crate::text::push_char;
use crate::text::str_to_chars;

verus! {

/// The whitespace JSON allows between tokens.
pub open spec fn json_ws(c: char) -> bool {
    c == ' ' || c == '\t' || c == '\n' || c == '\r'
}

/// The first position at or after `i` that does not hold whitespace.
pub open spec fn spec_skip_ws(s: Seq<char>, i: int) -> int
    decreases s.len() - i,
{
    if 0 <= i < s.len() && json_ws(s[i]) {
        spec_skip_ws(s, i + 1)
    } else {
        i
    }
}

/// The character a two-character escape stands for, if the second
/// character is one of the eight JSON short escapes.
pub open spec fn spec_unescape(c: char) -> Option<char> {
    if c == '"' { Some('"') }
    else if c == '\\' { Some('\\') }
    else if c == '/' { Some('/') }
    else if c == 'n' { Some('\n') }
    else if c == 't' { Some('\t') }
    else if c == 'r' { Some('\r') }
    else if c == 'b' { Some('\u{8}') }
    else if c == 'f' { Some('\u{c}') }
    else { None }
}

/// Prepends `prefix` to the text of a partial string-parse result.
pub open spec fn prepend(prefix: Seq<char>, o: Option<(Seq<char>, int)>) -> Option<(Seq<char>, int)> {
    match o {
        Some((cs, j)) => Some((prefix + cs, j)),
        None => None,
    }
}

/// Parses the inside of a JSON string starting at `i` (just after the
/// opening quote): the decoded characters and the position after the
/// closing quote. Control characters must be escaped; only the eight
/// short escapes are understood.
pub open spec fn spec_jstring_body(s: Seq<char>, i: int) -> Option<(Seq<char>, int)>
    decreases s.len() - i,
{
    if i >= s.len() {
        None
    } else if s[i] == '"' {
        Some((Seq::empty(), i + 1))
    } else if s[i] == '\\' {
        if i + 1 < s.len() {
            match spec_unescape(s[i + 1]) {
                Some(c) => prepend(seq![c], spec_jstring_body(s, i + 2)),
                None => None,
            }
        } else {
            None
        }
    } else if (s[i] as u32) < 32 {
        None
    } else {
        prepend(seq![s[i]], spec_jstring_body(s, i + 1))
    }
}

/// Parses a JSON string literal starting at `i`: an opening quote, the
/// body, a closing quote.
pub open spec fn spec_jstring(s: Seq<char>, i: int) -> Option<(Seq<char>, int)> {
    if 0 <= i < s.len() && s[i] == '"' {
        spec_jstring_body(s, i + 1)
    } else {
        None
    }
}

/// The end of the run of digits starting at `i`.
pub open spec fn spec_digits_end(s: Seq<char>, i: int) -> int
    decreases s.len() - i,
{
    if 0 <= i < s.len() && is_digit(s[i]) {
        spec_digits_end(s, i + 1)
    } else {
        i
    }
}

/// The digit run never ends before it starts.
proof fn lemma_digits_end_ge(s: Seq<char>, i: int)
    ensures
        spec_digits_end(s, i) >= i,
    decreases s.len() - i,
{
    if 0 <= i < s.len() && is_digit(s[i]) {
        lemma_digits_end_ge(s, i + 1);
    }
}

/// Parses a JSON integer at `i`: an optional minus sign and either a
/// single zero or a nonzero digit followed by more digits. The value is
/// unbounded here; the member rules bound it.
pub open spec fn spec_jint(s: Seq<char>, i: int) -> Option<(int, int)> {
    let neg = 0 <= i < s.len() && s[i] == '-';
    let d0 = if neg { i + 1 } else { i };
    if 0 <= d0 < s.len() && is_digit(s[d0]) {
        if s[d0] == '0' {
            Some((0, d0 + 1))
        } else {
            let end = spec_digits_end(s, d0);
            let v = digits_val(s, d0, end, 0);
            Some(((if neg { -v } else { v }), end))
        }
    } else {
        None
    }
}

/// Whether the four characters at `i` spell `null`.
pub open spec fn spec_null_at(s: Seq<char>, i: int) -> bool {
    0 <= i && i + 4 <= s.len() && s.subrange(i, i + 4) == "null"@
}

/// Parses the members of the record object from `i` (positioned at a
/// key), carrying the fields seen so far. A record object holds at most
/// three members, so four steps bound the search: a fourth member could
/// only repeat a key or name an unknown one, which is rejected with any
/// fuel.
pub open spec fn spec_members(
    s: Seq<char>,
    i: int,
    n: Option<Seq<char>>,
    e: Option<Seq<char>>,
    d: Option<Option<int>>,
    fuel: nat,
) -> Option<(UserV, int)>
    decreases fuel, 0nat,
{
    if fuel == 0 {
        None
    } else {
        match spec_jstring(s, i) {
            None => None,
            Some((key, j1)) => {
                let j2 = spec_skip_ws(s, j1);
                if j2 < s.len() && s[j2] == ':' {
                    let j3 = spec_skip_ws(s, j2 + 1);
                    if key == "name"@ {
                        if n is Some {
                            None
                        } else {
                            match spec_jstring(s, j3) {
                                Some((v, j4)) => spec_members_rest(s, j4, Some(v), e, d, (fuel - 1) as nat),
                                None => None,
                            }
                        }
                    } else if key == "email"@ {
                        if e is Some {
                            None
                        } else {
                            match spec_jstring(s, j3) {
                                Some((v, j4)) => spec_members_rest(s, j4, n, Some(v), d, (fuel - 1) as nat),
                                None => None,
                            }
                        }
                    } else if key == "id"@ {
                        if d is Some {
                            None
                        } else if spec_null_at(s, j3) {
                            spec_members_rest(s, j3 + 4, n, e, Some(None), (fuel - 1) as nat)
                        } else {
                            match spec_jint(s, j3) {
                                Some((v, j4)) => if -0x8000_0000 <= v < 0x8000_0000 {
                                    spec_members_rest(s, j4, n, e, Some(Some(v)), (fuel - 1) as nat)
                                } else {
                                    None
                                },
                                None => None,
                            }
                        }
                    } else {
                        None
                    }
                } else {
                    None
                }
            },
        }
    }
}

/// After a member's value: either a comma and a further member, or the
/// closing brace, which yields the record if both required fields were
/// seen.
pub open spec fn spec_members_rest(
    s: Seq<char>,
    i: int,
    n: Option<Seq<char>>,
    e: Option<Seq<char>>,
    d: Option<Option<int>>,
    fuel: nat,
) -> Option<(UserV, int)>
    decreases fuel, 1nat,
{
    let j = spec_skip_ws(s, i);
    if j < s.len() && s[j] == ',' {
        spec_members(s, spec_skip_ws(s, j + 1), n, e, d, fuel)
    } else if j < s.len() && s[j] == '}' {
        match (n, e) {
            (Some(nv), Some(ev)) => Some((
                UserV {
                    id: match d {
                        Some(x) => x,
                        None => None,
                    },
                    name: nv,
                    email: ev,
                },
                j + 1,
            )),
            _ => None,
        }
    } else {
        None
    }
}

/// What texts parse as a record: optional whitespace, the object, then
/// optional whitespace to the end of the text.
pub open spec fn spec_parse_record(s: Seq<char>) -> Option<UserV> {
    let j = spec_skip_ws(s, 0);
    if j < s.len() && s[j] == '{' {
        match spec_members(s, spec_skip_ws(s, j + 1), None, None, None, 4) {
            Some((rec, j3)) => {
                if spec_skip_ws(s, j3) == s.len() {
                    Some(rec)
                } else {
                    None
                }
            },
            None => None,
        }
    } else {
        None
    }
}

// --- executable parsing ---

/// Skips whitespace from `i`.
#[verifier::loop_isolation(false)]
fn skip_ws(s: &Vec<char>, i: usize) -> (r: usize)
    requires
        i <= s@.len(),
    ensures
        r as int == spec_skip_ws(s@, i as int),
        i <= r <= s@.len(),
{
    let mut k: usize = i;
    while k < s.len() && is_ws(s[k])
        invariant
            i <= k <= s@.len(),
            spec_skip_ws(s@, i as int) == spec_skip_ws(s@, k as int),
        decreases s@.len() - k,
    {
        k = k + 1;
    }
    k
}

/// Decides `json_ws`.
fn is_ws(c: char) -> (r: bool)
    ensures
        r == json_ws(c),
{
    c == ' ' || c == '\t' || c == '\n' || c == '\r'
}

/// Decodes a short escape.
fn unescape(c: char) -> (r: Option<char>)
    ensures
        r == spec_unescape(c),
{
    if c == '"' { Some('"') }
    else if c == '\\' { Some('\\') }
    else if c == '/' { Some('/') }
    else if c == 'n' { Some('\n') }
    else if c == 't' { Some('\t') }
    else if c == 'r' { Some('\r') }
    else if c == 'b' { Some('\u{8}') }
    else if c == 'f' { Some('\u{c}') }
    else { None }
}

/// Parses a JSON string literal at `i`.
#[verifier::loop_isolation(false)]
fn parse_jstring(s: &Vec<char>, i: usize) -> (r: Option<(String, usize)>)
    requires
        i <= s@.len(),
    ensures
        match spec_jstring(s@, i as int) {
            Some((cs, j)) => r matches Some((v, jj)) && v@ == cs && jj as int == j
                && i < jj <= s@.len(),
            None => r is None,
        },
{
    if i >= s.len() || s[i] != '"' {
        return None;
    }
    let mut k: usize = i + 1;
    let mut acc: String = String::new();
    loop
        invariant
            i + 1 <= k <= s@.len(),
            spec_jstring_body(s@, i as int + 1) == prepend(acc@, spec_jstring_body(s@, k as int)),
        decreases s@.len() - k,
    {
        if k >= s.len() {
            return None;
        }
        let c: char = s[k];
        if c == '"' {
            proof {
                assert(acc@ + Seq::<char>::empty() =~= acc@);
            }
            return Some((acc, k + 1));
        } else if c == '\\' {
            if k + 1 >= s.len() {
                return None;
            }
            let u: char = match unescape(s[k + 1]) {
                Some(u) => u,
                None => {
                    return None;
                },
            };
            proof {
                match spec_jstring_body(s@, k as int + 2) {
                    Some((cs, _)) => {
                        assert(acc@ + (seq![u] + cs) =~= acc@.push(u) + cs);
                    },
                    None => {},
                }
            }
            push_char(&mut acc, u);
            k = k + 2;
        } else if (c as u32) < 32 {
            return None;
        } else {
            proof {
                match spec_jstring_body(s@, k as int + 1) {
                    Some((cs, _)) => {
                        assert(acc@ + (seq![c] + cs) =~= acc@.push(c) + cs);
                    },
                    None => {},
                }
            }
            push_char(&mut acc, c);
            k = k + 1;
        }
    }
}

/// Parses a JSON integer at `i`, succeeding only when the value fits a
/// signed 32-bit identifier.
#[verifier::loop_isolation(false)]
fn parse_jint(s: &Vec<char>, i: usize) -> (r: Option<(i32, usize)>)
    requires
        i <= s@.len(),
    ensures
        match spec_jint(s@, i as int) {
            Some((v, j)) => {
                (-0x8000_0000 <= v < 0x8000_0000 ==> (r matches Some((vv, jj))
                    && vv as int == v && jj as int == j && i < jj <= s@.len()))
                && (!(-0x8000_0000 <= v < 0x8000_0000) ==> r is None)
            },
            None => r is None,
        },
{
    let neg: bool = i < s.len() && s[i] == '-';
    let d0: usize = if neg { i + 1 } else { i };
    if d0 >= s.len() || !is_digit_exec(s[d0]) {
        return None;
    }
    if s[d0] == '0' {
        return Some((0, d0 + 1));
    }
    let mut k: usize = d0;
    let mut acc: i64 = 0;
    while k < s.len() && is_digit_exec(s[k])
        invariant
            d0 <= k <= s@.len(),
            0 <= acc <= 0x8000_0000,
            spec_digits_end(s@, d0 as int) == spec_digits_end(s@, k as int),
            acc as int == digits_val(s@, d0 as int, k as int, 0),
        decreases s@.len() - k,
    {
        let d: u32 = digit_value_exec(s[k]);
        proof {
            crate::num::lemma_digits_val_extend(s@, d0 as int, k as int, 0);
        }
        let next: i64 = acc * 10 + d as i64;
        if next > 0x8000_0000 {
            proof {
                let end = spec_digits_end(s@, d0 as int);
                lemma_digits_end_ge(s@, k as int + 1);
                crate::num::lemma_digits_val_compose(s@, d0 as int, k as int + 1, end, 0);
                crate::num::lemma_digits_val_lower(s@, k as int + 1, end, next as int);
            }
            return None;
        }
        acc = next;
        k = k + 1;
    }
    let v: i64 = if neg { -acc } else { acc };
    if v >= 0x8000_0000 {
        return None;
    }
    Some((v as i32, k))
}

/// Decides `is_digit`.
fn is_digit_exec(c: char) -> (r: bool)
    ensures
        r == is_digit(c),
{
    c == '0' || c == '1' || c == '2' || c == '3' || c == '4'
        || c == '5' || c == '6' || c == '7' || c == '8' || c == '9'
}

/// Reads a digit's value; the character must be a digit.
fn digit_value_exec(c: char) -> (r: u32)
    requires
        is_digit(c),
    ensures
        r as int == digit_val(c),
{
    if c == '0' { 0 }
    else if c == '1' { 1 }
    else if c == '2' { 2 }
    else if c == '3' { 3 }
    else if c == '4' { 4 }
    else if c == '5' { 5 }
    else if c == '6' { 6 }
    else if c == '7' { 7 }
    else if c == '8' { 8 }
    else { 9 }
}

/// The view of an optional owned string.
pub open spec fn opt_view(o: Option<String>) -> Option<Seq<char>> {
    match o {
        Some(v) => Some(v@),
        None => None,
    }
}

/// The view of an optional parsed identifier.
pub open spec fn opt_id_view(o: Option<Option<i32>>) -> Option<Option<int>> {
    match o {
        Some(Some(v)) => Some(Some(v as int)),
        Some(None) => Some(None),
        None => None,
    }
}

/// Parses members from a key position; the executable mirror of
/// `spec_members`.
fn parse_members(
    s: &Vec<char>,
    i: usize,
    n: Option<String>,
    e: Option<String>,
    d: Option<Option<i32>>,
    fuel: usize,
) -> (r: Option<(User, usize)>)
    requires
        i <= s@.len(),
    ensures
        match spec_members(s@, i as int, opt_view(n), opt_view(e), opt_id_view(d), fuel as nat) {
            Some((rec, j)) => r matches Some((u, jj)) && u@ == rec && jj as int == j
                && jj <= s@.len(),
            None => r is None,
        },
    decreases fuel, 0nat,
{
    if fuel == 0 {
        return None;
    }
    let (key, j1) = match parse_jstring(s, i) {
        Some(p) => p,
        None => {
            return None;
        },
    };
    let j2: usize = skip_ws(s, j1);
    if !(j2 < s.len() && s[j2] == ':') {
        return None;
    }
    let j3: usize = skip_ws(s, j2 + 1);
    if key == "name".to_owned() {
        if n.is_some() {
            return None;
        }
        match parse_jstring(s, j3) {
            Some((v, j4)) => parse_members_rest(s, j4, Some(v), e, d, fuel - 1),
            None => None,
        }
    } else if key == "email".to_owned() {
        if e.is_some() {
            return None;
        }
        match parse_jstring(s, j3) {
            Some((v, j4)) => parse_members_rest(s, j4, n, Some(v), d, fuel - 1),
            None => None,
        }
    } else if key == "id".to_owned() {
        if d.is_some() {
            return None;
        }
        if null_at(s, j3) {
            parse_members_rest(s, j3 + 4, n, e, Some(None), fuel - 1)
        } else {
            match parse_jint(s, j3) {
                Some((v, j4)) => parse_members_rest(s, j4, n, e, Some(Some(v)), fuel - 1),
                None => None,
            }
        }
    } else {
        None
    }
}

/// Whether `null` stands at `i`.
fn null_at(s: &Vec<char>, i: usize) -> (r: bool)
    requires
        i <= s@.len(),
    ensures
        r == spec_null_at(s@, i as int),
{
    if s.len() >= 4 && i <= s.len() - 4 && s[i] == 'n' && s[i + 1] == 'u' && s[i + 2] == 'l'
        && s[i + 3] == 'l' {
        proof {
            reveal_strlit("null");
            assert(s@.subrange(i as int, i as int + 4) =~= "null"@);
        }
        true
    } else {
        proof {
            reveal_strlit("null");
            if i + 4 <= s@.len() && s@.subrange(i as int, i as int + 4) == "null"@ {
                assert(s@.subrange(i as int, i as int + 4)[0] == 'n');
                assert(s@.subrange(i as int, i as int + 4)[1] == 'u');
                assert(s@.subrange(i as int, i as int + 4)[2] == 'l');
                assert(s@.subrange(i as int, i as int + 4)[3] == 'l');
            }
        }
        false
    }
}

/// Continues after a member's value; the executable mirror of
/// `spec_members_rest`.
fn parse_members_rest(
    s: &Vec<char>,
    i: usize,
    n: Option<String>,
    e: Option<String>,
    d: Option<Option<i32>>,
    fuel: usize,
) -> (r: Option<(User, usize)>)
    requires
        i <= s@.len(),
    ensures
        match spec_members_rest(s@, i as int, opt_view(n), opt_view(e), opt_id_view(d), fuel as nat) {
            Some((rec, j)) => r matches Some((u, jj)) && u@ == rec && jj as int == j
                && jj <= s@.len(),
            None => r is None,
        },
    decreases fuel, 1nat,
{
    let j: usize = skip_ws(s, i);
    if j < s.len() && s[j] == ',' {
        let j2: usize = skip_ws(s, j + 1);
        parse_members(s, j2, n, e, d, fuel)
    } else if j < s.len() && s[j] == '}' {
        match (n, e) {
            (Some(nv), Some(ev)) => {
                let id: Option<i32> = match d {
                    Some(x) => x,
                    None => None,
                };
                Some((User { id, name: nv, email: ev }, j + 1))
            },
            _ => None,
        }
    } else {
        None
    }
}

/// Parses a whole text as a record; the executable mirror of
/// `spec_parse_record`.
pub fn parse_record_chars(s: &Vec<char>) -> (r: Option<User>)
    ensures
        match spec_parse_record(s@) {
            Some(rec) => r matches Some(u) && u@ == rec,
            None => r is None,
        },
{
    let j: usize = skip_ws(s, 0);
    if !(j < s.len() && s[j] == '{') {
        return None;
    }
    let j2: usize = skip_ws(s, j + 1);
    match parse_members(s, j2, None, None, None, 4) {
        Some((u, j3)) => {
            if skip_ws(s, j3) == s.len() {
                Some(u)
            } else {
                None
            }
        },
        None => None,
    }
}

/// Parses a request body as a record, as the create and update handlers
/// do.
pub fn parse_record(body: &str) -> (r: Option<User>)
    ensures
        match spec_parse_record(body@) {
            Some(rec) => r matches Some(u) && u@ == rec,
            None => r is None,
        },
{
    let chars = str_to_chars(body);
    parse_record_chars(&chars)
}

// --- rendering ---

/// The hexadecimal digit character for a value below sixteen.
pub open spec fn hex_char(d: int) -> char {
    if d < 10 {
        crate::num::digit_char(d)
    } else if d == 10 { 'a' }
    else if d == 11 { 'b' }
    else if d == 12 { 'c' }
    else if d == 13 { 'd' }
    else if d == 14 { 'e' }
    else { 'f' }
}

/// How one character is written inside a rendered JSON string.
pub open spec fn escape_char(c: char) -> Seq<char> {
    if c == '"' { seq!['\\', '"'] }
    else if c == '\\' { seq!['\\', '\\'] }
    else if c == '\n' { seq!['\\', 'n'] }
    else if c == '\r' { seq!['\\', 'r'] }
    else if c == '\t' { seq!['\\', 't'] }
    else if c == '\u{8}' { seq!['\\', 'b'] }
    else if c == '\u{c}' { seq!['\\', 'f'] }
    else if (c as u32) < 32 {
        seq!['\\', 'u', '0', '0', hex_char(c as u32 as int / 16), hex_char(c as u32 as int % 16)]
    } else {
        seq![c]
    }
}

/// The escaped form of the first `k` characters of `s`.
pub open spec fn escape_upto(s: Seq<char>, k: int) -> Seq<char>
    decreases k,
{
    if k <= 0 {
        Seq::empty()
    } else {
        escape_upto(s, k - 1) + escape_char(s[k - 1])
    }
}

/// The escaped form of a whole string.
pub open spec fn escape_str(s: Seq<char>) -> Seq<char> {
    escape_upto(s, s.len() as int)
}

/// Appends the escaped form of `src` to `out`.
#[verifier::loop_isolation(false)]
fn push_escaped(src: &str, out: &mut String)
    ensures
        final(out)@ == old(out)@ + escape_str(src@),
{
    let n: usize = src.unicode_len();
    let mut k: usize = 0;
    while k < n
        invariant
            k <= n,
            n == src@.len(),
            out@ == old(out)@ + escape_upto(src@, k as int),
        decreases n - k,
    {
        let c: char = src.get_char(k);
        if c == '"' {
            push_char(out, '\\');
            push_char(out, '"');
        } else if c == '\\' {
            push_char(out, '\\');
            push_char(out, '\\');
        } else if c == '\n' {
            push_char(out, '\\');
            push_char(out, 'n');
        } else if c == '\r' {
            push_char(out, '\\');
            push_char(out, 'r');
        } else if c == '\t' {
            push_char(out, '\\');
            push_char(out, 't');
        } else if c == '\u{8}' {
            push_char(out, '\\');
            push_char(out, 'b');
        } else if c == '\u{c}' {
            push_char(out, '\\');
            push_char(out, 'f');
        } else if (c as u32) < 32 {
            push_char(out, '\\');
            push_char(out, 'u');
            push_char(out, '0');
            push_char(out, '0');
            push_char(out, hex_of(c as u32 / 16));
            push_char(out, hex_of(c as u32 % 16));
        } else {
            push_char(out, c);
        }
        k = k + 1;
        proof {
            assert(out@ =~= old(out)@ + escape_upto(src@, k as int));
        }
    }
}

/// The hexadecimal digit character of a value below sixteen.
fn hex_of(d: u32) -> (c: char)
    requires
        d < 16,
    ensures
        c == hex_char(d as int),
{
    if d == 0 { '0' }
    else if d == 1 { '1' }
    else if d == 2 { '2' }
    else if d == 3 { '3' }
    else if d == 4 { '4' }
    else if d == 5 { '5' }
    else if d == 6 { '6' }
    else if d == 7 { '7' }
    else if d == 8 { '8' }
    else if d == 9 { '9' }
    else if d == 10 { 'a' }
    else if d == 11 { 'b' }
    else if d == 12 { 'c' }
    else if d == 13 { 'd' }
    else if d == 14 { 'e' }
    else { 'f' }
}

/// How a record is rendered: the fields in declaration order, the
/// identifier as a bare integer or `null`.
pub open spec fn spec_render_record(u: UserV) -> Seq<char> {
    "{\"id\":"@ + (match u.id {
        Some(v) => spec_i32_str(v),
        None => "null"@,
    }) + ",\"name\":\""@ + escape_str(u.name) + "\",\"email\":\""@ + escape_str(u.email) + "\"}"@
}

/// Renders one record, as the read-one handler returns it.
pub fn record_to_json(u: &User) -> (r: String)
    ensures
        r@ == spec_render_record(u@),
{
    let mut out: String = "{\"id\":".to_owned();
    match u.id {
        Some(v) => push_i32_dec(v, &mut out),
        None => out.append("null"),
    }
    out.append(",\"name\":\"");
    push_escaped(u.name.as_str(), &mut out);
    out.append("\",\"email\":\"");
    push_escaped(u.email.as_str(), &mut out);
    out.append("\"}");
    proof {
        assert(out@ =~= spec_render_record(u@));
    }
    out
}

/// The rendering of the records before index `k`, comma-separated.
pub open spec fn items_upto(l: Seq<UserV>, k: int) -> Seq<char>
    decreases k,
{
    if k <= 0 {
        Seq::empty()
    } else if k == 1 {
        spec_render_record(l[0])
    } else {
        items_upto(l, k - 1) + seq![','] + spec_render_record(l[k - 1])
    }
}

/// How a listing is rendered: the records in order inside brackets.
pub open spec fn spec_render_records(l: Seq<UserV>) -> Seq<char> {
    seq!['['] + items_upto(l, l.len() as int) + seq![']']
}

/// Renders a listing of records, as the read-all handler returns it.
#[verifier::loop_isolation(false)]
pub fn records_to_json(l: &Vec<User>) -> (r: String)
    ensures
        r@ == spec_render_records(l@.map_values(|u: User| u@)),
{
    let ghost lv: Seq<UserV> = l@.map_values(|u: User| u@);
    let mut out: String = "[".to_owned();
    let mut k: usize = 0;
    proof {
        reveal_strlit("[");
        assert(out@ =~= seq!['['] + items_upto(lv, 0));
    }
    while k < l.len()
        invariant
            k <= l@.len(),
            lv == l@.map_values(|u: User| u@),
            out@ == seq!['['] + items_upto(lv, k as int),
        decreases l@.len() - k,
    {
        if k > 0 {
            push_char(&mut out, ',');
        }
        let piece: String = record_to_json(&l[k]);
        out.append(piece.as_str());
        k = k + 1;
        proof {
            assert(lv[k as int - 1] == l@[k as int - 1]@);
            assert(out@ =~= seq!['['] + items_upto(lv, k as int));
        }
    }
    push_char(&mut out, ']');
    proof {
        assert(out@ =~= spec_render_records(lv));
    }
    out
}

} // verus!
