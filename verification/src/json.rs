//! Parsing of a personality document.
//!
//! The accepted input is a JSON array of personality objects, restricted to
//! the shapes the record schema uses: every member value is a string, an
//! array of strings, an object with string values, or — for the optional
//! fields — `null`. Strings take the full escape set, surrogate pairs
//! included; a repeated member key within one object is rejected, as is a
//! key outside the schema. The spec functions in this module define the
//! grammar directly; the executable parser is proved to return exactly
//! what they describe.

use crate::records::{Personality, RecordModel};
use vstd::prelude::*;
use vstd::std_specs::iter::IteratorSpec;

verus! {

broadcast use vstd::string::group_string_axioms;

/// The value of one object member, in the shapes the schema allows.
pub enum JsonAtom {
    Str(Seq<char>),
    StrList(Seq<Seq<char>>),
    StrPairs(Seq<(Seq<char>, Seq<char>)>),
    Null,
}

/// A record under construction: each field of [`RecordModel`], present once
/// its member has been read. For the two optional fields the outer `Option`
/// says whether the member occurred, the inner one whether it held a value
/// or `null`.
pub struct PartialModel {
    pub name: Option<Seq<char>>,
    pub programmer: Option<Seq<char>>,
    pub description: Option<Seq<char>>,
    pub philosophy: Option<Option<Seq<char>>>,
    pub tools: Option<Seq<Seq<char>>>,
    pub tags: Option<Seq<Seq<char>>>,
    pub environment: Option<Option<Seq<(Seq<char>, Seq<char>)>>>,
}

pub open spec fn empty_partial() -> PartialModel {
    PartialModel {
        name: None,
        programmer: None,
        description: None,
        philosophy: None,
        tools: None,
        tags: None,
        environment: None,
    }
}

/// JSON insignificant whitespace.
pub open spec fn is_ws(c: char) -> bool {
    c == ' ' || c == '\t' || c == '\n' || c == '\r'
}

/// The value of one hexadecimal digit.
pub open spec fn hex_digit(c: char) -> Option<u32> {
    if '0' <= c && c <= '9' {
        Some((c as u32 - 48) as u32)
    } else if 'a' <= c && c <= 'f' {
        Some((c as u32 - 87) as u32)
    } else if 'A' <= c && c <= 'F' {
        Some((c as u32 - 55) as u32)
    } else {
        None
    }
}

/// The character denoted by a single-character escape `\c`.
pub open spec fn escape_char(c: char) -> Option<char> {
    if c == '"' {
        Some('"')
    } else if c == '\\' {
        Some('\\')
    } else if c == '/' {
        Some('/')
    } else if c == 'b' {
        Some('\u{8}')
    } else if c == 'f' {
        Some('\u{c}')
    } else if c == 'n' {
        Some('\n')
    } else if c == 'r' {
        Some('\r')
    } else if c == 't' {
        Some('\t')
    } else {
        None
    }
}

/// The value of the four hexadecimal digits at `i`.
pub open spec fn hex4(s: Seq<char>, i: int) -> Option<u32> {
    if 0 <= i && i + 4 <= s.len() {
        match (hex_digit(s[i]), hex_digit(s[i + 1]), hex_digit(s[i + 2]), hex_digit(s[i + 3])) {
            (Some(a), Some(b), Some(c), Some(d)) => Some(
                (a * 0x1000 + b * 0x100 + c * 0x10 + d) as u32,
            ),
            _ => None,
        }
    } else {
        None
    }
}

/// First position at or after `i` holding no whitespace.
pub open spec fn skip_ws(s: Seq<char>, i: int) -> int
    decreases s.len() - i,
{
    if 0 <= i && i < s.len() && is_ws(s[i]) {
        skip_ws(s, i + 1)
    } else {
        i
    }
}

/// The character written as the surrogate pair `\u{high}\u{low}`.
pub open spec fn surrogate_pair_char(high: u32, low: u32) -> char {
    ((0x10000 + (high - 0xD800) * 0x400 + (low - 0xDC00)) as u32) as char
}

/// The remainder of a string literal: `i` stands just after the opening
/// quote or after a previously read character, `acc` holds what was read.
/// A `\u` escape naming a high surrogate must be followed by one naming a
/// low surrogate; the pair denotes one character beyond the Basic
/// Multilingual Plane, and a lone surrogate is rejected. On success: the
/// string's value and the position just after the closing quote.
pub open spec fn string_rest(s: Seq<char>, i: int, acc: Seq<char>) -> Option<(Seq<char>, int)>
    decreases s.len() - i,
{
    if 0 <= i && i < s.len() {
        let c = s[i];
        if c == '"' {
            Some((acc, i + 1))
        } else if c == '\\' {
            if i + 1 < s.len() {
                let e = s[i + 1];
                if e == 'u' {
                    match hex4(s, i + 2) {
                        Some(v) => if v < 0xD800 || v >= 0xE000 {
                            string_rest(s, i + 6, acc.push(v as char))
                        } else if v < 0xDC00 {
                            if i + 7 < s.len() && s[i + 6] == '\\' && s[i + 7] == 'u' {
                                match hex4(s, i + 8) {
                                    Some(w) => if 0xDC00 <= w && w < 0xE000 {
                                        string_rest(s, i + 12, acc.push(surrogate_pair_char(v, w)))
                                    } else {
                                        None
                                    },
                                    None => None,
                                }
                            } else {
                                None
                            }
                        } else {
                            None
                        },
                        None => None,
                    }
                } else {
                    match escape_char(e) {
                        Some(d) => string_rest(s, i + 2, acc.push(d)),
                        None => None,
                    }
                }
            } else {
                None
            }
        } else if c >= '\u{20}' {
            string_rest(s, i + 1, acc.push(c))
        } else {
            None
        }
    } else {
        None
    }
}

/// Replaces the value of key `k` if present, else appends the pair: a later
/// binding of a key wins while the key keeps its first position.
pub open spec fn env_insert(
    acc: Seq<(Seq<char>, Seq<char>)>,
    k: Seq<char>,
    v: Seq<char>,
) -> Seq<(Seq<char>, Seq<char>)>
    decreases acc.len(),
{
    if acc.len() == 0 {
        seq![(k, v)]
    } else if acc[0].0 == k {
        seq![(k, v)] + acc.drop_first()
    } else {
        seq![acc[0]] + env_insert(acc.drop_first(), k, v)
    }
}

/// Elements of a string array from the element expected at `i` to the
/// closing bracket. The bound checks on the recursive position always hold;
/// they keep the recursion visibly decreasing.
pub open spec fn list_items(s: Seq<char>, i: int, acc: Seq<Seq<char>>) -> Option<
    (Seq<Seq<char>>, int),
>
    decreases s.len() - i,
{
    if 0 <= i && i < s.len() && s[i] == '"' {
        match string_rest(s, i + 1, Seq::empty()) {
            Some((t, j)) => {
                let k = skip_ws(s, j);
                if 0 <= k && k < s.len() {
                    if s[k] == ',' {
                        let m = skip_ws(s, k + 1);
                        if i < m && m <= s.len() {
                            list_items(s, m, acc.push(t))
                        } else {
                            None
                        }
                    } else if s[k] == ']' {
                        Some((acc.push(t), k + 1))
                    } else {
                        None
                    }
                } else {
                    None
                }
            },
            None => None,
        }
    } else {
        None
    }
}

/// Members of a string-valued object from the key expected at `i` to the
/// closing brace; a repeated key keeps its last value.
pub open spec fn pair_items(s: Seq<char>, i: int, acc: Seq<(Seq<char>, Seq<char>)>) -> Option<
    (Seq<(Seq<char>, Seq<char>)>, int),
>
    decreases s.len() - i,
{
    if 0 <= i && i < s.len() && s[i] == '"' {
        match string_rest(s, i + 1, Seq::empty()) {
            Some((k, j)) => {
                let c = skip_ws(s, j);
                if 0 <= c && c < s.len() && s[c] == ':' {
                    let m = skip_ws(s, c + 1);
                    if 0 <= m && m < s.len() && s[m] == '"' {
                        match string_rest(s, m + 1, Seq::empty()) {
                            Some((v, w)) => {
                                let q = skip_ws(s, w);
                                if 0 <= q && q < s.len() {
                                    if s[q] == ',' {
                                        let r = skip_ws(s, q + 1);
                                        if i < r && r <= s.len() {
                                            pair_items(s, r, env_insert(acc, k, v))
                                        } else {
                                            None
                                        }
                                    } else if s[q] == '}' {
                                        Some((env_insert(acc, k, v), q + 1))
                                    } else {
                                        None
                                    }
                                } else {
                                    None
                                }
                            },
                            None => None,
                        }
                    } else {
                        None
                    }
                } else {
                    None
                }
            },
            None => None,
        }
    } else {
        None
    }
}

/// One member value, in the shapes the schema allows: a string, an array
/// of strings, an object with string values, or `null`. On success: the
/// value and the position just after it.
pub open spec fn member_value(s: Seq<char>, i: int) -> Option<(JsonAtom, int)> {
    if 0 <= i && i < s.len() {
        let c = s[i];
        if c == 'n' {
            if i + 3 < s.len() && s[i + 1] == 'u' && s[i + 2] == 'l' && s[i + 3] == 'l' {
                Some((JsonAtom::Null, i + 4))
            } else {
                None
            }
        } else if c == '"' {
            match string_rest(s, i + 1, Seq::empty()) {
                Some((t, j)) => Some((JsonAtom::Str(t), j)),
                None => None,
            }
        } else if c == '[' {
            let j = skip_ws(s, i + 1);
            if 0 <= j && j < s.len() && s[j] == ']' {
                Some((JsonAtom::StrList(Seq::empty()), j + 1))
            } else {
                match list_items(s, j, Seq::empty()) {
                    Some((ts, k)) => Some((JsonAtom::StrList(ts), k)),
                    None => None,
                }
            }
        } else if c == '{' {
            let j = skip_ws(s, i + 1);
            if 0 <= j && j < s.len() && s[j] == '}' {
                Some((JsonAtom::StrPairs(Seq::empty()), j + 1))
            } else {
                match pair_items(s, j, Seq::empty()) {
                    Some((ps, k)) => Some((JsonAtom::StrPairs(ps), k)),
                    None => None,
                }
            }
        } else {
            None
        }
    } else {
        None
    }
}

/// Folds one member into a record under construction: the key selects the
/// field, the value must have that field's shape, and an unknown or
/// repeated key is rejected. The optional fields also take `null`, which
/// counts as absent.
pub open spec fn apply_member(p: PartialModel, key: Seq<char>, v: JsonAtom) -> Option<
    PartialModel,
> {
    if key == "name"@ {
        match v {
            JsonAtom::Str(t) => if p.name is None {
                Some(PartialModel { name: Some(t), ..p })
            } else {
                None
            },
            _ => None,
        }
    } else if key == "programmer"@ {
        match v {
            JsonAtom::Str(t) => if p.programmer is None {
                Some(PartialModel { programmer: Some(t), ..p })
            } else {
                None
            },
            _ => None,
        }
    } else if key == "description"@ {
        match v {
            JsonAtom::Str(t) => if p.description is None {
                Some(PartialModel { description: Some(t), ..p })
            } else {
                None
            },
            _ => None,
        }
    } else if key == "philosophy"@ {
        match v {
            JsonAtom::Str(t) => if p.philosophy is None {
                Some(PartialModel { philosophy: Some(Some(t)), ..p })
            } else {
                None
            },
            JsonAtom::Null => if p.philosophy is None {
                Some(PartialModel { philosophy: Some(None), ..p })
            } else {
                None
            },
            _ => None,
        }
    } else if key == "tools"@ {
        match v {
            JsonAtom::StrList(ts) => if p.tools is None {
                Some(PartialModel { tools: Some(ts), ..p })
            } else {
                None
            },
            _ => None,
        }
    } else if key == "tags"@ {
        match v {
            JsonAtom::StrList(ts) => if p.tags is None {
                Some(PartialModel { tags: Some(ts), ..p })
            } else {
                None
            },
            _ => None,
        }
    } else if key == "environment"@ {
        match v {
            JsonAtom::StrPairs(ps) => if p.environment is None {
                Some(PartialModel { environment: Some(Some(ps)), ..p })
            } else {
                None
            },
            JsonAtom::Null => if p.environment is None {
                Some(PartialModel { environment: Some(None), ..p })
            } else {
                None
            },
            _ => None,
        }
    } else {
        None
    }
}

/// A record is complete when every required field was read; `philosophy`
/// and `environment` stay optional, with an explicit `null` the same as
/// absence.
pub open spec fn complete(p: PartialModel) -> Option<RecordModel> {
    match (p.name, p.programmer, p.description, p.tools, p.tags) {
        (Some(name), Some(programmer), Some(description), Some(tools), Some(tags)) => Some(
            RecordModel {
                name,
                programmer,
                description,
                philosophy: match p.philosophy {
                    Some(x) => x,
                    None => None,
                },
                tools,
                tags,
                environment: match p.environment {
                    Some(x) => x,
                    None => None,
                },
            },
        ),
        _ => None,
    }
}

/// Members of a personality object from the key expected at `i` to the
/// closing brace, folded into `p`.
pub open spec fn record_members(s: Seq<char>, i: int, p: PartialModel) -> Option<
    (PartialModel, int),
>
    decreases s.len() - i,
{
    if 0 <= i && i < s.len() && s[i] == '"' {
        match string_rest(s, i + 1, Seq::empty()) {
            Some((key, j)) => {
                let c = skip_ws(s, j);
                if 0 <= c && c < s.len() && s[c] == ':' {
                    let m = skip_ws(s, c + 1);
                    match member_value(s, m) {
                        Some((v, n)) => match apply_member(p, key, v) {
                            Some(p2) => {
                                let q = skip_ws(s, n);
                                if 0 <= q && q < s.len() {
                                    if s[q] == ',' {
                                        let r = skip_ws(s, q + 1);
                                        if i < r && r <= s.len() {
                                            record_members(s, r, p2)
                                        } else {
                                            None
                                        }
                                    } else if s[q] == '}' {
                                        Some((p2, q + 1))
                                    } else {
                                        None
                                    }
                                } else {
                                    None
                                }
                            },
                            None => None,
                        },
                        None => None,
                    }
                } else {
                    None
                }
            },
            None => None,
        }
    } else {
        None
    }
}

/// One personality object, starting at its opening brace. On success: the
/// record and the position just after the closing brace. An object without
/// all required fields is rejected.
pub open spec fn record_at(s: Seq<char>, i: int) -> Option<(RecordModel, int)> {
    if 0 <= i && i < s.len() && s[i] == '{' {
        let j = skip_ws(s, i + 1);
        match record_members(s, j, empty_partial()) {
            Some((p, k)) => match complete(p) {
                Some(r) => Some((r, k)),
                None => None,
            },
            None => None,
        }
    } else {
        None
    }
}

/// Elements of the top-level array from the object expected at `i` to the
/// closing bracket.
pub open spec fn record_items(s: Seq<char>, i: int, acc: Seq<RecordModel>) -> Option<
    (Seq<RecordModel>, int),
>
    decreases s.len() - i,
{
    match record_at(s, i) {
        Some((r, j)) => {
            let k = skip_ws(s, j);
            if 0 <= k && k < s.len() {
                if s[k] == ',' {
                    let m = skip_ws(s, k + 1);
                    if i < m && m <= s.len() {
                        record_items(s, m, acc.push(r))
                    } else {
                        None
                    }
                } else if s[k] == ']' {
                    Some((acc.push(r), k + 1))
                } else {
                    None
                }
            } else {
                None
            }
        },
        None => None,
    }
}

/// The whole document: a JSON array of personality objects with nothing
/// but whitespace around it. On success: the records in source order.
pub open spec fn parse_document(s: Seq<char>) -> Option<Seq<RecordModel>> {
    let i = skip_ws(s, 0);
    if 0 <= i && i < s.len() && s[i] == '[' {
        let j = skip_ws(s, i + 1);
        if 0 <= j && j < s.len() && s[j] == ']' {
            if skip_ws(s, j + 1) == s.len() {
                Some(Seq::empty())
            } else {
                None
            }
        } else {
            match record_items(s, j, Seq::empty()) {
                Some((rs, k)) => if skip_ws(s, k) == s.len() {
                    Some(rs)
                } else {
                    None
                },
                None => None,
            }
        }
    } else {
        None
    }
}

/// Relies on `String::push`: appends exactly the one character.
#[verifier::external_body]
fn push_char(s: &mut String, c: char)
    ensures
        final(s)@ == old(s)@.push(c),
{
    s.push(c);
}

/// Relies on `char::from_u32`: `Some` exactly on Unicode scalar values,
/// holding the character with that code point.
#[verifier::external_body]
fn char_from_u32(v: u32) -> (r: Option<char>)
    ensures
        (0xD800 <= v && v < 0xE000) || v > 0x10FFFF ==> r is None,
        v < 0xD800 || (0xE000 <= v && v <= 0x10FFFF) ==> r == Some(v as char),
{
    char::from_u32(v)
}

/// The characters of `s`, one vector element each.
fn to_char_vec(s: &str) -> (v: Vec<char>)
    ensures
        v@ == s@,
{
    let mut v: Vec<char> = Vec::new();
    let mut it = s.chars();
    loop
        invariant
            v@ + it.remaining() == s@,
        ensures
            v@ + it.remaining() == s@,
            it.remaining().len() == 0,
        decreases s@.len() - v@.len(),
    {
        match it.next() {
            Some(c) => {
                v.push(c);
            },
            None => {
                break ;
            },
        }
    }
    proof {
        assert(v@ =~= s@);
    }
    v
}

/// First position at or after `i` holding no whitespace.
fn ws_end(s: &Vec<char>, i: usize) -> (r: usize)
    requires
        i <= s@.len(),
    ensures
        r as int == skip_ws(s@, i as int),
        i <= r <= s@.len(),
{
    let mut j: usize = i;
    loop
        invariant
            i <= j <= s@.len(),
            skip_ws(s@, i as int) == skip_ws(s@, j as int),
        ensures
            i <= j <= s@.len(),
            j as int == skip_ws(s@, i as int),
        decreases s@.len() - j,
    {
        if j < s.len() {
            let c = s[j];
            if is_ws_e(c) {
                j = j + 1;
            } else {
                break ;
            }
        } else {
            break ;
        }
    }
    j
}

/// Whether `c` is JSON whitespace.
fn is_ws_e(c: char) -> (r: bool)
    ensures
        r == is_ws(c),
{
    c == ' ' || c == '\t' || c == '\n' || c == '\r'
}

/// The value of one hexadecimal digit.
fn hex_digit_e(c: char) -> (r: Option<u32>)
    ensures
        r == hex_digit(c),
{
    if '0' <= c && c <= '9' {
        Some(c as u32 - 48)
    } else if 'a' <= c && c <= 'f' {
        Some(c as u32 - 87)
    } else if 'A' <= c && c <= 'F' {
        Some(c as u32 - 55)
    } else {
        None
    }
}

/// The character denoted by a single-character escape `\c`.
fn escape_char_e(c: char) -> (r: Option<char>)
    ensures
        r == escape_char(c),
{
    if c == '"' {
        Some('"')
    } else if c == '\\' {
        Some('\\')
    } else if c == '/' {
        Some('/')
    } else if c == 'b' {
        Some('\u{8}')
    } else if c == 'f' {
        Some('\u{c}')
    } else if c == 'n' {
        Some('\n')
    } else if c == 'r' {
        Some('\r')
    } else if c == 't' {
        Some('\t')
    } else {
        None
    }
}

/// The remainder of a string literal, starting just after the opening
/// quote.
#[verifier::rlimit(60)]
fn string_rest_e(s: &Vec<char>, start: usize) -> (r: Option<(String, usize)>)
    requires
        start <= s@.len(),
    ensures
        match r {
            Some(t) => {
                &&& string_rest(s@, start as int, Seq::empty()) == Some((t.0@, t.1 as int))
                &&& start < t.1 <= s@.len()
            },
            None => string_rest(s@, start as int, Seq::empty()) is None,
        },
{
    let mut acc = String::new();
    let mut i: usize = start;
    loop
        invariant
            start <= i <= s@.len(),
            string_rest(s@, start as int, Seq::empty()) == string_rest(s@, i as int, acc@),
        decreases s@.len() - i,
    {
        if i >= s.len() {
            return None;
        }
        let c = s[i];
        if c == '"' {
            return Some((acc, i + 1));
        } else if c == '\\' {
            if i + 1 >= s.len() {
                return None;
            }
            let e = s[i + 1];
            if e == 'u' {
                if s.len() - i < 6 {
                    return None;
                }
                let d0 = hex_digit_e(s[i + 2]);
                let d1 = hex_digit_e(s[i + 3]);
                let d2 = hex_digit_e(s[i + 4]);
                let d3 = hex_digit_e(s[i + 5]);
                match (d0, d1, d2, d3) {
                    (Some(a), Some(b), Some(cc), Some(d)) => {
                        let v: u32 = a * 0x1000 + b * 0x100 + cc * 0x10 + d;
                        assert(hex4(s@, i + 2) == Some(v));
                        if v < 0xD800 || v >= 0xE000 {
                            match char_from_u32(v) {
                                Some(ch) => {
                                    push_char(&mut acc, ch);
                                    i = i + 6;
                                },
                                None => {
                                    assert(false);
                                    return None;
                                },
                            }
                        } else if v < 0xDC00 {
                            if s.len() - i < 8 || s[i + 6] != '\\' || s[i + 7] != 'u' {
                                return None;
                            }
                            if s.len() - i < 12 {
                                return None;
                            }
                            let e0 = hex_digit_e(s[i + 8]);
                            let e1 = hex_digit_e(s[i + 9]);
                            let e2 = hex_digit_e(s[i + 10]);
                            let e3 = hex_digit_e(s[i + 11]);
                            match (e0, e1, e2, e3) {
                                (Some(a2), Some(b2), Some(c2), Some(d2)) => {
                                    let w: u32 = a2 * 0x1000 + b2 * 0x100 + c2 * 0x10 + d2;
                                    assert(hex4(s@, i + 8) == Some(w));
                                    if !(0xDC00 <= w && w < 0xE000) {
                                        return None;
                                    }
                                    let combined: u32 = 0x10000 + (v - 0xD800) * 0x400 + (w
                                        - 0xDC00);
                                    match char_from_u32(combined) {
                                        Some(ch) => {
                                            assert(ch == surrogate_pair_char(v, w));
                                            push_char(&mut acc, ch);
                                            i = i + 12;
                                        },
                                        None => {
                                            assert(false);
                                            return None;
                                        },
                                    }
                                },
                                _ => {
                                    return None;
                                },
                            }
                        } else {
                            return None;
                        }
                    },
                    _ => {
                        return None;
                    },
                }
            } else {
                match escape_char_e(e) {
                    Some(d) => {
                        push_char(&mut acc, d);
                        i = i + 2;
                    },
                    None => {
                        return None;
                    },
                }
            }
        } else if c >= '\u{20}' {
            push_char(&mut acc, c);
            i = i + 1;
        } else {
            return None;
        }
    }
}

/// Executable counterpart of [`JsonAtom`].
enum AtomE {
    Str(String),
    StrList(Vec<String>),
    StrPairs(Vec<(String, String)>),
    Null,
}

impl View for AtomE {
    type V = JsonAtom;

    closed spec fn view(&self) -> JsonAtom {
        match self {
            AtomE::Str(t) => JsonAtom::Str(t@),
            AtomE::StrList(v) => JsonAtom::StrList(v.deep_view()),
            AtomE::StrPairs(v) => JsonAtom::StrPairs(v.deep_view()),
            AtomE::Null => JsonAtom::Null,
        }
    }
}

proof fn lemma_env_insert_found(
    es: Seq<(Seq<char>, Seq<char>)>,
    k: Seq<char>,
    v: Seq<char>,
    idx: int,
)
    requires
        0 <= idx < es.len(),
        es[idx].0 == k,
        forall|j: int| 0 <= j < idx ==> es[j].0 != k,
    ensures
        env_insert(es, k, v) == es.update(idx, (k, v)),
    decreases idx,
{
    if idx == 0 {
        assert(env_insert(es, k, v) =~= es.update(0, (k, v)));
    } else {
        lemma_env_insert_found(es.drop_first(), k, v, idx - 1);
        assert(env_insert(es, k, v) =~= es.update(idx, (k, v)));
    }
}

proof fn lemma_env_insert_absent(es: Seq<(Seq<char>, Seq<char>)>, k: Seq<char>, v: Seq<char>)
    requires
        forall|j: int| 0 <= j < es.len() ==> es[j].0 != k,
    ensures
        env_insert(es, k, v) == es.push((k, v)),
    decreases es.len(),
{
    if es.len() == 0 {
        assert(env_insert(es, k, v) =~= es.push((k, v)));
    } else {
        lemma_env_insert_absent(es.drop_first(), k, v);
        assert(env_insert(es, k, v) =~= es.push((k, v)));
    }
}

/// Position of the first pair holding key `k`, if any.
fn find_env_key(acc: &Vec<(String, String)>, k: &String) -> (r: Option<usize>)
    ensures
        match r {
            Some(idx) => {
                &&& idx < acc@.len()
                &&& acc.deep_view()[idx as int].0 == k@
                &&& forall|j: int| 0 <= j < idx ==> acc.deep_view()[j].0 != k@
            },
            None => forall|j: int| 0 <= j < acc@.len() ==> acc.deep_view()[j].0 != k@,
        },
{
    let n = acc.len();
    let mut idx: usize = 0;
    while idx < n
        invariant
            idx <= n == acc@.len(),
            forall|j: int| 0 <= j < idx ==> acc.deep_view()[j].0 != k@,
        decreases n - idx,
    {
        if acc[idx].0.eq(k) {
            return Some(idx);
        }
        idx = idx + 1;
    }
    None
}

/// Binds `k` to `v`: replaces the value of an existing key, else appends.
fn env_insert_e(acc: &mut Vec<(String, String)>, k: String, v: String)
    ensures
        final(acc).deep_view() == env_insert(old(acc).deep_view(), k@, v@),
{
    let ghost es = acc.deep_view();
    match find_env_key(acc, &k) {
        Some(idx) => {
            proof {
                lemma_env_insert_found(es, k@, v@, idx as int);
            }
            acc[idx] = (k, v);
            assert(acc.deep_view() =~= es.update(idx as int, (k@, v@)));
        },
        None => {
            proof {
                lemma_env_insert_absent(es, k@, v@);
            }
            acc.push((k, v));
            assert(acc.deep_view() =~= es.push((k@, v@)));
        },
    }
}

/// Elements of a string array, starting at the first element.
fn list_items_e(s: &Vec<char>, start: usize) -> (r: Option<(Vec<String>, usize)>)
    requires
        start <= s@.len(),
    ensures
        match r {
            Some(t) => {
                &&& list_items(s@, start as int, Seq::empty()) == Some(
                    (t.0.deep_view(), t.1 as int),
                )
                &&& start < t.1 <= s@.len()
            },
            None => list_items(s@, start as int, Seq::empty()) is None,
        },
{
    let mut acc: Vec<String> = Vec::new();
    assert(acc.deep_view() =~= Seq::<Seq<char>>::empty());
    let mut i: usize = start;
    loop
        invariant
            start <= i <= s@.len(),
            list_items(s@, start as int, Seq::empty()) == list_items(s@, i as int, acc.deep_view()),
        decreases s@.len() - i,
    {
        if i >= s.len() {
            return None;
        }
        if s[i] != '"' {
            return None;
        }
        match string_rest_e(s, i + 1) {
            Some((t, j)) => {
                let k = ws_end(s, j);
                if k >= s.len() {
                    return None;
                }
                let ghost dv = acc.deep_view();
                if s[k] == ',' {
                    let m = ws_end(s, k + 1);
                    acc.push(t);
                    assert(acc.deep_view() =~= dv.push(t@));
                    i = m;
                } else if s[k] == ']' {
                    acc.push(t);
                    assert(acc.deep_view() =~= dv.push(t@));
                    return Some((acc, k + 1));
                } else {
                    return None;
                }
            },
            None => {
                return None;
            },
        }
    }
}

/// Members of a string-valued object, starting at the first key.
fn pair_items_e(s: &Vec<char>, start: usize) -> (r: Option<(Vec<(String, String)>, usize)>)
    requires
        start <= s@.len(),
    ensures
        match r {
            Some(t) => {
                &&& pair_items(s@, start as int, Seq::empty()) == Some(
                    (t.0.deep_view(), t.1 as int),
                )
                &&& start < t.1 <= s@.len()
            },
            None => pair_items(s@, start as int, Seq::empty()) is None,
        },
{
    let mut acc: Vec<(String, String)> = Vec::new();
    assert(acc.deep_view() =~= Seq::<(Seq<char>, Seq<char>)>::empty());
    let mut i: usize = start;
    loop
        invariant
            start <= i <= s@.len(),
            pair_items(s@, start as int, Seq::empty()) == pair_items(s@, i as int, acc.deep_view()),
        decreases s@.len() - i,
    {
        if i >= s.len() {
            return None;
        }
        if s[i] != '"' {
            return None;
        }
        match string_rest_e(s, i + 1) {
            Some((k1, j)) => {
                let c = ws_end(s, j);
                if c >= s.len() || s[c] != ':' {
                    return None;
                }
                let m = ws_end(s, c + 1);
                if m >= s.len() || s[m] != '"' {
                    return None;
                }
                match string_rest_e(s, m + 1) {
                    Some((v1, w)) => {
                        let q = ws_end(s, w);
                        if q >= s.len() {
                            return None;
                        }
                        if s[q] == ',' {
                            let r2 = ws_end(s, q + 1);
                            env_insert_e(&mut acc, k1, v1);
                            i = r2;
                        } else if s[q] == '}' {
                            env_insert_e(&mut acc, k1, v1);
                            return Some((acc, q + 1));
                        } else {
                            return None;
                        }
                    },
                    None => {
                        return None;
                    },
                }
            },
            None => {
                return None;
            },
        }
    }
}

/// One member value, in the shapes the schema allows.
fn member_value_e(s: &Vec<char>, i: usize) -> (r: Option<(AtomE, usize)>)
    requires
        i <= s@.len(),
    ensures
        match r {
            Some(t) => {
                &&& member_value(s@, i as int) == Some((t.0@, t.1 as int))
                &&& i < t.1 <= s@.len()
            },
            None => member_value(s@, i as int) is None,
        },
{
    if i >= s.len() {
        return None;
    }
    let c = s[i];
    if c == 'n' {
        if s.len() - i >= 4 && s[i + 1] == 'u' && s[i + 2] == 'l' && s[i + 3] == 'l' {
            Some((AtomE::Null, i + 4))
        } else {
            None
        }
    } else if c == '"' {
        match string_rest_e(s, i + 1) {
            Some((t, j)) => Some((AtomE::Str(t), j)),
            None => None,
        }
    } else if c == '[' {
        let j = ws_end(s, i + 1);
        if j < s.len() && s[j] == ']' {
            let empty_list: Vec<String> = Vec::new();
            assert(empty_list.deep_view() =~= Seq::<Seq<char>>::empty());
            Some((AtomE::StrList(empty_list), j + 1))
        } else {
            match list_items_e(s, j) {
                Some((ts, k)) => Some((AtomE::StrList(ts), k)),
                None => None,
            }
        }
    } else if c == '{' {
        let j = ws_end(s, i + 1);
        if j < s.len() && s[j] == '}' {
            let empty_pairs: Vec<(String, String)> = Vec::new();
            assert(empty_pairs.deep_view() =~= Seq::<(Seq<char>, Seq<char>)>::empty());
            Some((AtomE::StrPairs(empty_pairs), j + 1))
        } else {
            match pair_items_e(s, j) {
                Some((ps, k)) => Some((AtomE::StrPairs(ps), k)),
                None => None,
            }
        }
    } else {
        None
    }
}

/// Executable counterpart of [`PartialModel`].
struct PartialE {
    name: Option<String>,
    programmer: Option<String>,
    description: Option<String>,
    philosophy: Option<Option<String>>,
    tools: Option<Vec<String>>,
    tags: Option<Vec<String>>,
    environment: Option<Option<Vec<(String, String)>>>,
}

impl View for PartialE {
    type V = PartialModel;

    closed spec fn view(&self) -> PartialModel {
        PartialModel {
            name: self.name.deep_view(),
            programmer: self.programmer.deep_view(),
            description: self.description.deep_view(),
            philosophy: self.philosophy.deep_view(),
            tools: self.tools.deep_view(),
            tags: self.tags.deep_view(),
            environment: self.environment.deep_view(),
        }
    }
}

/// Folds one member into a record under construction; `false` rejects an
/// unknown or repeated key and a value of the wrong shape.
fn apply_member_e(p: &mut PartialE, key: &String, v: AtomE) -> (ok: bool)
    ensures
        match apply_member(old(p)@, key@, v@) {
            Some(p2) => ok && final(p)@ == p2,
            None => !ok,
        },
{
    if key.eq(&String::from_str("name")) {
        match v {
            AtomE::Str(t) => {
                if p.name.is_none() {
                    p.name = Some(t);
                    true
                } else {
                    false
                }
            },
            _ => false,
        }
    } else if key.eq(&String::from_str("programmer")) {
        match v {
            AtomE::Str(t) => {
                if p.programmer.is_none() {
                    p.programmer = Some(t);
                    true
                } else {
                    false
                }
            },
            _ => false,
        }
    } else if key.eq(&String::from_str("description")) {
        match v {
            AtomE::Str(t) => {
                if p.description.is_none() {
                    p.description = Some(t);
                    true
                } else {
                    false
                }
            },
            _ => false,
        }
    } else if key.eq(&String::from_str("philosophy")) {
        match v {
            AtomE::Str(t) => {
                if p.philosophy.is_none() {
                    p.philosophy = Some(Some(t));
                    true
                } else {
                    false
                }
            },
            AtomE::Null => {
                if p.philosophy.is_none() {
                    p.philosophy = Some(None);
                    true
                } else {
                    false
                }
            },
            _ => false,
        }
    } else if key.eq(&String::from_str("tools")) {
        match v {
            AtomE::StrList(ts) => {
                if p.tools.is_none() {
                    p.tools = Some(ts);
                    true
                } else {
                    false
                }
            },
            _ => false,
        }
    } else if key.eq(&String::from_str("tags")) {
        match v {
            AtomE::StrList(ts) => {
                if p.tags.is_none() {
                    p.tags = Some(ts);
                    true
                } else {
                    false
                }
            },
            _ => false,
        }
    } else if key.eq(&String::from_str("environment")) {
        match v {
            AtomE::StrPairs(ps) => {
                if p.environment.is_none() {
                    p.environment = Some(Some(ps));
                    true
                } else {
                    false
                }
            },
            AtomE::Null => {
                if p.environment.is_none() {
                    p.environment = Some(None);
                    true
                } else {
                    false
                }
            },
            _ => false,
        }
    } else {
        false
    }
}

/// Turns a finished object into a record, if every required field was read.
fn complete_e(p: PartialE) -> (r: Option<Personality>)
    ensures
        match r {
            Some(rec) => complete(p@) == Some(rec@),
            None => complete(p@) is None,
        },
{
    match (p.name, p.programmer, p.description, p.tools, p.tags) {
        (Some(name), Some(programmer), Some(description), Some(tools), Some(tags)) => Some(
            Personality {
                name,
                programmer,
                description,
                philosophy: match p.philosophy {
                    Some(x) => x,
                    None => None,
                },
                tools,
                tags,
                environment: match p.environment {
                    Some(x) => x,
                    None => None,
                },
            },
        ),
        _ => None,
    }
}

/// Members of a personality object, starting at the first key.
fn record_members_e(s: &Vec<char>, start: usize) -> (r: Option<(PartialE, usize)>)
    requires
        start <= s@.len(),
    ensures
        match r {
            Some(t) => {
                &&& record_members(s@, start as int, empty_partial()) == Some((t.0@, t.1 as int))
                &&& start < t.1 <= s@.len()
            },
            None => record_members(s@, start as int, empty_partial()) is None,
        },
{
    let mut p = PartialE {
        name: None,
        programmer: None,
        description: None,
        philosophy: None,
        tools: None,
        tags: None,
        environment: None,
    };
    assert(p@ == empty_partial());
    let mut i: usize = start;
    loop
        invariant
            start <= i <= s@.len(),
            record_members(s@, start as int, empty_partial()) == record_members(s@, i as int, p@),
        decreases s@.len() - i,
    {
        if i >= s.len() {
            return None;
        }
        if s[i] != '"' {
            return None;
        }
        match string_rest_e(s, i + 1) {
            Some((key, j)) => {
                let c = ws_end(s, j);
                if c >= s.len() || s[c] != ':' {
                    return None;
                }
                let m = ws_end(s, c + 1);
                match member_value_e(s, m) {
                    Some((v, n)) => {
                        if !apply_member_e(&mut p, &key, v) {
                            return None;
                        }
                        let q = ws_end(s, n);
                        if q >= s.len() {
                            return None;
                        }
                        if s[q] == ',' {
                            let r2 = ws_end(s, q + 1);
                            i = r2;
                        } else if s[q] == '}' {
                            return Some((p, q + 1));
                        } else {
                            return None;
                        }
                    },
                    None => {
                        return None;
                    },
                }
            },
            None => {
                return None;
            },
        }
    }
}

/// One personality object, starting at its opening brace.
fn record_at_e(s: &Vec<char>, i: usize) -> (r: Option<(Personality, usize)>)
    requires
        i <= s@.len(),
    ensures
        match r {
            Some(t) => {
                &&& record_at(s@, i as int) == Some((t.0@, t.1 as int))
                &&& i < t.1 <= s@.len()
            },
            None => record_at(s@, i as int) is None,
        },
{
    if i >= s.len() || s[i] != '{' {
        return None;
    }
    let j = ws_end(s, i + 1);
    match record_members_e(s, j) {
        Some((p, k)) => match complete_e(p) {
            Some(rec) => Some((rec, k)),
            None => None,
        },
        None => None,
    }
}

/// Elements of the top-level array, starting at the first object.
fn record_items_e(s: &Vec<char>, start: usize) -> (r: Option<(Vec<Personality>, usize)>)
    requires
        start <= s@.len(),
    ensures
        match r {
            Some(t) => {
                &&& record_items(s@, start as int, Seq::empty()) == Some(
                    (t.0.deep_view(), t.1 as int),
                )
                &&& t.1 <= s@.len()
            },
            None => record_items(s@, start as int, Seq::empty()) is None,
        },
{
    let mut acc: Vec<Personality> = Vec::new();
    assert(acc.deep_view() =~= Seq::<RecordModel>::empty());
    let mut i: usize = start;
    loop
        invariant
            start <= i <= s@.len(),
            record_items(s@, start as int, Seq::empty()) == record_items(
                s@,
                i as int,
                acc.deep_view(),
            ),
        decreases s@.len() - i,
    {
        match record_at_e(s, i) {
            Some((rec, j)) => {
                let k = ws_end(s, j);
                if k >= s.len() {
                    return None;
                }
                let ghost dv = acc.deep_view();
                if s[k] == ',' {
                    let m = ws_end(s, k + 1);
                    acc.push(rec);
                    assert(acc.deep_view() =~= dv.push(rec@));
                    i = m;
                } else if s[k] == ']' {
                    acc.push(rec);
                    assert(acc.deep_view() =~= dv.push(rec@));
                    return Some((acc, k + 1));
                } else {
                    return None;
                }
            },
            None => {
                return None;
            },
        }
    }
}

/// Parses a whole personality document: exactly the inputs
/// [`parse_document`] accepts yield `Some`, holding the records in source
/// order.
pub fn parse_personalities(s: &str) -> (r: Option<Vec<Personality>>)
    ensures
        match r {
            Some(v) => parse_document(s@) == Some(v.deep_view()),
            None => parse_document(s@) is None,
        },
{
    let cs = to_char_vec(s);
    let i = ws_end(&cs, 0);
    if i >= cs.len() || cs[i] != '[' {
        return None;
    }
    let j = ws_end(&cs, i + 1);
    if j < cs.len() && cs[j] == ']' {
        let k = ws_end(&cs, j + 1);
        if k == cs.len() {
            let none_yet: Vec<Personality> = Vec::new();
            assert(none_yet.deep_view() =~= Seq::<RecordModel>::empty());
            Some(none_yet)
        } else {
            None
        }
    } else {
        match record_items_e(&cs, j) {
            Some((rs, k)) => {
                let m = ws_end(&cs, k);
                if m == cs.len() {
                    Some(rs)
                } else {
                    None
                }
            },
            None => None,
        }
    }
}

} // verus!
