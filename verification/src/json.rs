//! Interpreting a response body against the two known shapes.
//!
//! The body is scanned as characters by a recursive-descent reader for the
//! JSON-like grammar the service speaks: objects, arrays, strings with the
//! simple escapes, plain decimal numbers (no exponent part), the three word
//! literals, and whitespace.  Each executable reader mirrors a specification
//! function over `Seq<char>`, and its contract says it returns exactly what
//! that function denotes.  Unknown members are read and discarded; a member
//! that a shape needs is taken once, and a second occurrence of it, like any
//! text outside the grammar, makes the whole body malformed.
//!
//! Several readers re-check that an index an earlier step returned really
//! advanced.  Those checks are never hit; they keep every recursion measure
//! self-evident.

use vstd::prelude::*;

use crate::decimal::{dec_wf, mk_dec, Dec, MANT_LIMIT, MAX_SCALE};
use crate::text::{chars_to_string, str_to_chars};
use crate::types::{CurrencyRatesResponse, ErrorBody, ErrorResponse, SuccessGuard};

verus! {

/// The insignificant whitespace characters.
pub open spec fn is_ws(c: char) -> bool {
    c == ' ' || c == '\t' || c == '\n' || c == '\r'
}

/// The decimal digits.
pub open spec fn is_digit(c: char) -> bool {
    '0' <= c && c <= '9'
}

/// The numeric value of a digit character.
pub open spec fn digit_val(c: char) -> int {
    c as int - '0' as int
}

fn is_ws_c(c: char) -> (b: bool)
    ensures
        b == is_ws(c),
{
    c == ' ' || c == '\t' || c == '\n' || c == '\r'
}

fn is_digit_c(c: char) -> (b: bool)
    ensures
        b == is_digit(c),
{
    '0' <= c && c <= '9'
}

fn digit_val_c(c: char) -> (d: u128)
    requires
        is_digit(c),
    ensures
        d == digit_val(c),
        d <= 9,
{
    (c as u32 - '0' as u32) as u128
}

/// First position at or after `i` that holds no whitespace.
pub open spec fn spec_skip_ws(s: Seq<char>, i: int) -> int
    decreases s.len() - i,
{
    if 0 <= i < s.len() && is_ws(s[i]) {
        spec_skip_ws(s, i + 1)
    } else {
        i
    }
}

fn skip_ws(s: &Vec<char>, i: usize) -> (r: usize)
    requires
        i <= s@.len(),
    ensures
        r == spec_skip_ws(s@, i as int),
        i <= r <= s@.len(),
    decreases s@.len() - i,
{
    if i < s.len() && is_ws_c(s[i]) {
        skip_ws(s, i + 1)
    } else {
        i
    }
}

/// Read the remainder of a quoted string, the opening quote already
/// consumed: `acc` plus the decoded characters, and the position after the
/// closing quote.  The simple escapes are decoded; an unknown escape, a raw
/// control character or an unterminated string is malformed.
pub open spec fn spec_string_rest(s: Seq<char>, i: int, acc: Seq<char>) -> Option<(Seq<char>, int)>
    decreases s.len() - i,
{
    if i < 0 || i >= s.len() {
        None
    } else if s[i] == '"' {
        Some((acc, i + 1))
    } else if s[i] == '\\' {
        if i + 1 >= s.len() {
            None
        } else {
            let e = s[i + 1];
            if e == '"' {
                spec_string_rest(s, i + 2, acc.push('"'))
            } else if e == '\\' {
                spec_string_rest(s, i + 2, acc.push('\\'))
            } else if e == '/' {
                spec_string_rest(s, i + 2, acc.push('/'))
            } else if e == 'n' {
                spec_string_rest(s, i + 2, acc.push('\n'))
            } else if e == 't' {
                spec_string_rest(s, i + 2, acc.push('\t'))
            } else if e == 'r' {
                spec_string_rest(s, i + 2, acc.push('\r'))
            } else if e == 'b' {
                spec_string_rest(s, i + 2, acc.push('\u{0008}'))
            } else if e == 'f' {
                spec_string_rest(s, i + 2, acc.push('\u{000C}'))
            } else {
                None
            }
        }
    } else if (s[i] as u32) < 0x20 {
        None
    } else {
        spec_string_rest(s, i + 1, acc.push(s[i]))
    }
}

/// Read a quoted string starting at its opening quote.
pub open spec fn spec_string(s: Seq<char>, i: int) -> Option<(Seq<char>, int)> {
    if 0 <= i < s.len() && s[i] == '"' {
        spec_string_rest(s, i + 1, Seq::empty())
    } else {
        None
    }
}

fn string_rest(s: &Vec<char>, i: usize, acc: Vec<char>) -> (r: Option<(Vec<char>, usize)>)
    ensures
        ({
            let sp = spec_string_rest(s@, i as int, acc@);
            match r {
                None => sp is None,
                Some(p) => sp == Some((p.0@, p.1 as int)) && p.1 <= s@.len(),
            }
        }),
    decreases s@.len() - i,
{
    if i >= s.len() {
        None
    } else {
        let c = s[i];
        if c == '"' {
            Some((acc, i + 1))
        } else if c == '\\' {
            if i + 1 >= s.len() {
                None
            } else {
                let e = s[i + 1];
                let mut acc2 = acc;
                if e == '"' {
                    acc2.push('"');
                } else if e == '\\' {
                    acc2.push('\\');
                } else if e == '/' {
                    acc2.push('/');
                } else if e == 'n' {
                    acc2.push('\n');
                } else if e == 't' {
                    acc2.push('\t');
                } else if e == 'r' {
                    acc2.push('\r');
                } else if e == 'b' {
                    acc2.push('\u{0008}');
                } else if e == 'f' {
                    acc2.push('\u{000C}');
                } else {
                    return None;
                }
                string_rest(s, i + 2, acc2)
            }
        } else if (c as u32) < 0x20 {
            None
        } else {
            let mut acc2 = acc;
            acc2.push(c);
            string_rest(s, i + 1, acc2)
        }
    }
}

fn pstring(s: &Vec<char>, i: usize) -> (r: Option<(Vec<char>, usize)>)
    requires
        i <= s@.len(),
    ensures
        ({
            let sp = spec_string(s@, i as int);
            match r {
                None => sp is None,
                Some(p) => sp == Some((p.0@, p.1 as int)) && p.1 <= s@.len(),
            }
        }),
{
    if i < s.len() && s[i] == '"' {
        string_rest(s, i + 1, Vec::new())
    } else {
        None
    }
}

/// Accumulate integer digits into a mantissa, rejecting one that reaches the
/// mantissa bound.
pub open spec fn spec_digits(s: Seq<char>, i: int, mant: u128) -> Option<(u128, int)>
    decreases s.len() - i,
{
    if 0 <= i < s.len() && is_digit(s[i]) {
        let m2 = mant * 10 + digit_val(s[i]);
        if m2 < MANT_LIMIT {
            spec_digits(s, i + 1, m2 as u128)
        } else {
            None
        }
    } else {
        Some((mant, i))
    }
}

fn digits(s: &Vec<char>, i: usize, mant: u128) -> (r: Option<(u128, usize)>)
    requires
        i <= s@.len(),
        mant < MANT_LIMIT,
    ensures
        ({
            let sp = spec_digits(s@, i as int, mant);
            match r {
                None => sp is None,
                Some(p) => sp == Some((p.0, p.1 as int)) && p.0 < MANT_LIMIT && p.1 <= s@.len(),
            }
        }),
    decreases s@.len() - i,
{
    if i < s.len() && is_digit_c(s[i]) {
        let d = digit_val_c(s[i]);
        let m2 = mant * 10 + d;
        if m2 < MANT_LIMIT {
            digits(s, i + 1, m2)
        } else {
            None
        }
    } else {
        Some((mant, i))
    }
}

/// Accumulate fraction digits, counting the scale, rejecting a mantissa or a
/// scale over the representable bounds.
pub open spec fn spec_frac(s: Seq<char>, i: int, mant: u128, sc: u32) -> Option<(u128, u32, int)>
    decreases s.len() - i,
{
    if 0 <= i < s.len() && is_digit(s[i]) {
        if sc >= MAX_SCALE {
            None
        } else {
            let m2 = mant * 10 + digit_val(s[i]);
            if m2 < MANT_LIMIT {
                spec_frac(s, i + 1, m2 as u128, (sc + 1) as u32)
            } else {
                None
            }
        }
    } else {
        Some((mant, sc, i))
    }
}

fn frac(s: &Vec<char>, i: usize, mant: u128, sc: u32) -> (r: Option<(u128, u32, usize)>)
    requires
        i <= s@.len(),
        mant < MANT_LIMIT,
        sc <= MAX_SCALE,
    ensures
        ({
            let sp = spec_frac(s@, i as int, mant, sc);
            match r {
                None => sp is None,
                Some(p) => sp == Some((p.0, p.1, p.2 as int)) && p.0 < MANT_LIMIT && p.1
                    <= MAX_SCALE && p.2 <= s@.len(),
            }
        }),
    decreases s@.len() - i,
{
    if i < s.len() && is_digit_c(s[i]) {
        if sc >= MAX_SCALE {
            None
        } else {
            let d = digit_val_c(s[i]);
            let m2 = mant * 10 + d;
            if m2 < MANT_LIMIT {
                frac(s, i + 1, m2, sc + 1)
            } else {
                None
            }
        }
    } else {
        Some((mant, sc, i))
    }
}

/// Read a number: optional minus, integer digits, optional fraction.  An
/// exponent part is not in the service's grammar and is malformed.
pub open spec fn spec_number(s: Seq<char>, i: int) -> Option<(Dec, int)> {
    if i < 0 || i >= s.len() {
        None
    } else {
        let neg = s[i] == '-';
        let i1 = if neg {
            i + 1
        } else {
            i
        };
        if i1 >= s.len() || !is_digit(s[i1]) {
            None
        } else {
            match spec_digits(s, i1, 0) {
                None => None,
                Some((m, i2)) => {
                    if i2 < s.len() && s[i2] == '.' {
                        if i2 + 1 >= s.len() || !is_digit(s[i2 + 1]) {
                            None
                        } else {
                            match spec_frac(s, i2 + 1, m, 0) {
                                None => None,
                                Some((m2, sc, i3)) => {
                                    if i3 < s.len() && (s[i3] == 'e' || s[i3] == 'E') {
                                        None
                                    } else {
                                        Some((mk_dec(neg, m2, sc), i3))
                                    }
                                },
                            }
                        }
                    } else if i2 < s.len() && (s[i2] == 'e' || s[i2] == 'E') {
                        None
                    } else {
                        Some((mk_dec(neg, m, 0), i2))
                    }
                },
            }
        }
    }
}

fn number(s: &Vec<char>, i: usize) -> (r: Option<(Dec, usize)>)
    requires
        i <= s@.len(),
    ensures
        ({
            let sp = spec_number(s@, i as int);
            match r {
                None => sp is None,
                Some(p) => sp == Some((p.0, p.1 as int)) && dec_wf(p.0) && p.1 <= s@.len(),
            }
        }),
{
    if i >= s.len() {
        None
    } else {
        let neg = s[i] == '-';
        let i1 = if neg {
            i + 1
        } else {
            i
        };
        if i1 >= s.len() || !is_digit_c(s[i1]) {
            None
        } else {
            match digits(s, i1, 0) {
                None => None,
                Some((m, i2)) => {
                    if i2 < s.len() && s[i2] == '.' {
                        if i2 + 1 >= s.len() || !is_digit_c(s[i2 + 1]) {
                            None
                        } else {
                            match frac(s, i2 + 1, m, 0) {
                                None => None,
                                Some((m2, sc, i3)) => {
                                    if i3 < s.len() && (s[i3] == 'e' || s[i3] == 'E') {
                                        None
                                    } else {
                                        Some((Dec { neg: neg && m2 != 0, mant: m2, scale: sc }, i3))
                                    }
                                },
                            }
                        }
                    } else if i2 < s.len() && (s[i2] == 'e' || s[i2] == 'E') {
                        None
                    } else {
                        Some((Dec { neg: neg && m != 0, mant: m, scale: 0 }, i2))
                    }
                },
            }
        }
    }
}

/// Read a boolean literal after optional whitespace.
pub open spec fn spec_bool(s: Seq<char>, i: int) -> Option<(bool, int)> {
    let j = spec_skip_ws(s, i);
    if j + 4 <= s.len() && s[j] == 't' && s[j + 1] == 'r' && s[j + 2] == 'u' && s[j + 3] == 'e' {
        Some((true, j + 4))
    } else if s.len() - j >= 5 && s[j] == 'f' && s[j + 1] == 'a' && s[j + 2] == 'l' && s[j + 3]
        == 's' && s[j + 4] == 'e' {
        Some((false, j + 5))
    } else {
        None
    }
}

fn pbool(s: &Vec<char>, i: usize) -> (r: Option<(bool, usize)>)
    requires
        i <= s@.len(),
    ensures
        ({
            let sp = spec_bool(s@, i as int);
            match r {
                None => sp is None,
                Some(p) => sp == Some((p.0, p.1 as int)) && p.1 <= s@.len(),
            }
        }),
{
    let j = skip_ws(s, i);
    if s.len() - j >= 4 && s[j] == 't' && s[j + 1] == 'r' && s[j + 2] == 'u' && s[j + 3] == 'e' {
        Some((true, j + 4))
    } else if s.len() - j >= 5 && s[j] == 'f' && s[j + 1] == 'a' && s[j + 2] == 'l' && s[j + 3]
        == 's' && s[j + 4] == 'e' {
        Some((false, j + 5))
    } else {
        None
    }
}

/// Read an arbitrary value and return the position after it, without keeping
/// it.  Used to pass over members no shape asks for.
pub open spec fn spec_skip_value(s: Seq<char>, i: int) -> Option<int>
    decreases s.len() - i, 2int,
{
    let j = spec_skip_ws(s, i);
    if j < i || j >= s.len() {
        None
    } else {
        let c = s[j];
        if c == '{' {
            spec_skip_object(s, j)
        } else if c == '[' {
            spec_skip_array(s, j)
        } else if c == '"' {
            match spec_string(s, j) {
                None => None,
                Some((_k, e)) => Some(e),
            }
        } else if c == 't' || c == 'f' {
            match spec_bool(s, j) {
                None => None,
                Some((_b, e)) => Some(e),
            }
        } else if c == 'n' {
            if j + 4 <= s.len() && s[j + 1] == 'u' && s[j + 2] == 'l' && s[j + 3] == 'l' {
                Some(j + 4)
            } else {
                None
            }
        } else if c == '-' || is_digit(c) {
            match spec_number(s, j) {
                None => None,
                Some((_d, e)) => Some(e),
            }
        } else {
            None
        }
    }
}

/// Pass over an object, `i` at its opening brace.
pub open spec fn spec_skip_object(s: Seq<char>, i: int) -> Option<int>
    decreases s.len() - i, 0int,
{
    if !(0 <= i < s.len() && s[i] == '{') {
        None
    } else {
        let j = spec_skip_ws(s, i + 1);
        if j < i + 1 || j >= s.len() {
            None
        } else if s[j] == '}' {
            Some(j + 1)
        } else {
            spec_skip_members(s, i + 1)
        }
    }
}

/// Pass over an object's members, `i` just after the brace or a comma.
pub open spec fn spec_skip_members(s: Seq<char>, i: int) -> Option<int>
    decreases s.len() - i, 3int,
{
    let j = spec_skip_ws(s, i);
    if j < i || j >= s.len() || s[j] != '"' {
        None
    } else {
        match spec_string(s, j) {
            None => None,
            Some((_k, jk)) => {
                let jc = spec_skip_ws(s, jk);
                if jc < jk || jc >= s.len() || s[jc] != ':' || jc + 1 <= i {
                    None
                } else {
                    match spec_skip_value(s, jc + 1) {
                        None => None,
                        Some(je) => {
                            let jd = spec_skip_ws(s, je);
                            if jd >= s.len() || jd + 1 <= i {
                                None
                            } else if s[jd] == ',' {
                                spec_skip_members(s, jd + 1)
                            } else if s[jd] == '}' {
                                Some(jd + 1)
                            } else {
                                None
                            }
                        },
                    }
                }
            },
        }
    }
}

/// Pass over an array, `i` at its opening bracket.
pub open spec fn spec_skip_array(s: Seq<char>, i: int) -> Option<int>
    decreases s.len() - i, 0int,
{
    if !(0 <= i < s.len() && s[i] == '[') {
        None
    } else {
        let j = spec_skip_ws(s, i + 1);
        if j < i + 1 || j >= s.len() {
            None
        } else if s[j] == ']' {
            Some(j + 1)
        } else {
            spec_skip_elems(s, i + 1)
        }
    }
}

/// Pass over an array's elements, `i` just after the bracket or a comma.
pub open spec fn spec_skip_elems(s: Seq<char>, i: int) -> Option<int>
    decreases s.len() - i, 3int,
{
    match spec_skip_value(s, i) {
        None => None,
        Some(je) => {
            let jd = spec_skip_ws(s, je);
            if jd >= s.len() || jd + 1 <= i {
                None
            } else if s[jd] == ',' {
                spec_skip_elems(s, jd + 1)
            } else if s[jd] == ']' {
                Some(jd + 1)
            } else {
                None
            }
        },
    }
}

fn skip_value(s: &Vec<char>, i: usize) -> (r: Option<usize>)
    requires
        i <= s@.len(),
    ensures
        ({
            let sp = spec_skip_value(s@, i as int);
            match r {
                None => sp is None,
                Some(e) => sp == Some(e as int) && e <= s@.len(),
            }
        }),
    decreases s@.len() - i, 2int,
{
    let j = skip_ws(s, i);
    if j >= s.len() {
        None
    } else {
        let c = s[j];
        if c == '{' {
            skip_object(s, j)
        } else if c == '[' {
            skip_array(s, j)
        } else if c == '"' {
            match pstring(s, j) {
                None => None,
                Some((_k, e)) => Some(e),
            }
        } else if c == 't' || c == 'f' {
            match pbool(s, j) {
                None => None,
                Some((_b, e)) => Some(e),
            }
        } else if c == 'n' {
            if s.len() - j >= 4 && s[j + 1] == 'u' && s[j + 2] == 'l' && s[j + 3] == 'l' {
                Some(j + 4)
            } else {
                None
            }
        } else if c == '-' || is_digit_c(c) {
            match number(s, j) {
                None => None,
                Some((_d, e)) => Some(e),
            }
        } else {
            None
        }
    }
}

fn skip_object(s: &Vec<char>, i: usize) -> (r: Option<usize>)
    requires
        i <= s@.len(),
    ensures
        ({
            let sp = spec_skip_object(s@, i as int);
            match r {
                None => sp is None,
                Some(e) => sp == Some(e as int) && e <= s@.len(),
            }
        }),
    decreases s@.len() - i, 0int,
{
    if !(i < s.len() && s[i] == '{') {
        None
    } else {
        let j = skip_ws(s, i + 1);
        if j >= s.len() {
            None
        } else if s[j] == '}' {
            Some(j + 1)
        } else {
            skip_members(s, i + 1)
        }
    }
}

fn skip_members(s: &Vec<char>, i: usize) -> (r: Option<usize>)
    requires
        i <= s@.len(),
    ensures
        ({
            let sp = spec_skip_members(s@, i as int);
            match r {
                None => sp is None,
                Some(e) => sp == Some(e as int) && e <= s@.len(),
            }
        }),
    decreases s@.len() - i, 3int,
{
    let j = skip_ws(s, i);
    if j >= s.len() || s[j] != '"' {
        None
    } else {
        match pstring(s, j) {
            None => None,
            Some((_k, jk)) => {
                let jc = skip_ws(s, jk);
                if jc >= s.len() || s[jc] != ':' || jc + 1 <= i {
                    None
                } else {
                    match skip_value(s, jc + 1) {
                        None => None,
                        Some(je) => {
                            let jd = skip_ws(s, je);
                            if jd >= s.len() || jd + 1 <= i {
                                None
                            } else if s[jd] == ',' {
                                skip_members(s, jd + 1)
                            } else if s[jd] == '}' {
                                Some(jd + 1)
                            } else {
                                None
                            }
                        },
                    }
                }
            },
        }
    }
}

fn skip_array(s: &Vec<char>, i: usize) -> (r: Option<usize>)
    requires
        i <= s@.len(),
    ensures
        ({
            let sp = spec_skip_array(s@, i as int);
            match r {
                None => sp is None,
                Some(e) => sp == Some(e as int) && e <= s@.len(),
            }
        }),
    decreases s@.len() - i, 0int,
{
    if !(i < s.len() && s[i] == '[') {
        None
    } else {
        let j = skip_ws(s, i + 1);
        if j >= s.len() {
            None
        } else if s[j] == ']' {
            Some(j + 1)
        } else {
            skip_elems(s, i + 1)
        }
    }
}

fn skip_elems(s: &Vec<char>, i: usize) -> (r: Option<usize>)
    requires
        i <= s@.len(),
    ensures
        ({
            let sp = spec_skip_elems(s@, i as int);
            match r {
                None => sp is None,
                Some(e) => sp == Some(e as int) && e <= s@.len(),
            }
        }),
    decreases s@.len() - i, 3int,
{
    match skip_value(s, i) {
        None => None,
        Some(je) => {
            let jd = skip_ws(s, je);
            if jd >= s.len() || jd + 1 <= i {
                None
            } else if s[jd] == ',' {
                skip_elems(s, jd + 1)
            } else if s[jd] == ']' {
                Some(jd + 1)
            } else {
                None
            }
        },
    }
}

/// A member's key and the position of its value: whitespace, quoted key,
/// whitespace, colon.
pub open spec fn spec_member_key(s: Seq<char>, i: int) -> Option<(Seq<char>, int)> {
    let j = spec_skip_ws(s, i);
    if j >= s.len() || s[j] != '"' {
        None
    } else {
        match spec_string(s, j) {
            None => None,
            Some((key, jk)) => {
                let jc = spec_skip_ws(s, jk);
                if jc >= s.len() || s[jc] != ':' {
                    None
                } else {
                    Some((key, jc + 1))
                }
            },
        }
    }
}

fn pkey(s: &Vec<char>, i: usize) -> (r: Option<(Vec<char>, usize)>)
    requires
        i <= s@.len(),
    ensures
        ({
            let sp = spec_member_key(s@, i as int);
            match r {
                None => sp is None,
                Some(p) => sp == Some((p.0@, p.1 as int)) && p.1 <= s@.len(),
            }
        }),
{
    let j = skip_ws(s, i);
    if j >= s.len() || s[j] != '"' {
        return None;
    }
    match pstring(s, j) {
        None => None,
        Some((key, jk)) => {
            let jc = skip_ws(s, jk);
            if jc >= s.len() || s[jc] != ':' {
                None
            } else {
                Some((key, jc + 1))
            }
        },
    }
}

/// After a member: either a comma before another member (`true`) or the
/// closing brace (`false`), and the following position.
pub open spec fn spec_member_sep(s: Seq<char>, i: int) -> Option<(bool, int)> {
    let j = spec_skip_ws(s, i);
    if j >= s.len() {
        None
    } else if s[j] == ',' {
        Some((true, j + 1))
    } else if s[j] == '}' {
        Some((false, j + 1))
    } else {
        None
    }
}

fn psep(s: &Vec<char>, i: usize) -> (r: Option<(bool, usize)>)
    requires
        i <= s@.len(),
    ensures
        ({
            let sp = spec_member_sep(s@, i as int);
            match r {
                None => sp is None,
                Some(p) => sp == Some((p.0, p.1 as int)) && p.1 <= s@.len(),
            }
        }),
{
    let j = skip_ws(s, i);
    if j >= s.len() {
        None
    } else if s[j] == ',' {
        Some((true, j + 1))
    } else if s[j] == '}' {
        Some((false, j + 1))
    } else {
        None
    }
}

/// An object's opening: whitespace, the brace, and whether the object is
/// empty.  For an empty object the position follows the closing brace; for a
/// populated one it follows the opening brace.
pub open spec fn spec_object_open(s: Seq<char>, i: int) -> Option<(bool, int)> {
    let j = spec_skip_ws(s, i);
    if j >= s.len() || s[j] != '{' {
        None
    } else {
        let j2 = spec_skip_ws(s, j + 1);
        if j2 >= s.len() {
            None
        } else if s[j2] == '}' {
            Some((true, j2 + 1))
        } else {
            Some((false, j + 1))
        }
    }
}

fn popen(s: &Vec<char>, i: usize) -> (r: Option<(bool, usize)>)
    requires
        i <= s@.len(),
    ensures
        ({
            let sp = spec_object_open(s@, i as int);
            match r {
                None => sp is None,
                Some(p) => sp == Some((p.0, p.1 as int)) && p.1 <= s@.len(),
            }
        }),
{
    let j = skip_ws(s, i);
    if j >= s.len() || s[j] != '{' {
        None
    } else {
        let j2 = skip_ws(s, j + 1);
        if j2 >= s.len() {
            None
        } else if s[j2] == '}' {
            Some((true, j2 + 1))
        } else {
            Some((false, j + 1))
        }
    }
}

/// A number after optional whitespace.
pub open spec fn spec_number_ws(s: Seq<char>, i: int) -> Option<(Dec, int)> {
    spec_number(s, spec_skip_ws(s, i))
}

fn pnumber(s: &Vec<char>, i: usize) -> (r: Option<(Dec, usize)>)
    requires
        i <= s@.len(),
    ensures
        ({
            let sp = spec_number_ws(s@, i as int);
            match r {
                None => sp is None,
                Some(p) => sp == Some((p.0, p.1 as int)) && dec_wf(p.0) && p.1 <= s@.len(),
            }
        }),
{
    let j = skip_ws(s, i);
    number(s, j)
}

/// A quoted string after optional whitespace.
pub open spec fn spec_string_ws(s: Seq<char>, i: int) -> Option<(Seq<char>, int)> {
    spec_string(s, spec_skip_ws(s, i))
}

fn pstring_ws(s: &Vec<char>, i: usize) -> (r: Option<(Vec<char>, usize)>)
    requires
        i <= s@.len(),
    ensures
        ({
            let sp = spec_string_ws(s@, i as int);
            match r {
                None => sp is None,
                Some(p) => sp == Some((p.0@, p.1 as int)) && p.1 <= s@.len(),
            }
        }),
{
    let j = skip_ws(s, i);
    pstring(s, j)
}

/// A number read as an unsigned 16-bit integer, the way the error code field
/// demands it: no fraction, no sign, within range.
pub open spec fn dec_to_u16(d: Dec) -> Option<u16> {
    if d.scale == 0 && !d.neg && d.mant <= 65535 {
        Some(d.mant as u16)
    } else {
        None
    }
}

fn to_u16(d: &Dec) -> (r: Option<u16>)
    ensures
        r == dec_to_u16(*d),
{
    if d.scale == 0 && !d.neg && d.mant <= 65535 {
        Some(d.mant as u16)
    } else {
        None
    }
}

/// A number read as a signed 64-bit integer, the way the timestamp field
/// demands it: no fraction, within range.
pub open spec fn dec_to_i64(d: Dec) -> Option<i64> {
    if d.scale != 0 {
        None
    } else if d.neg {
        if d.mant <= 9223372036854775808 {
            Some((-(d.mant as int)) as i64)
        } else {
            None
        }
    } else {
        if d.mant <= 9223372036854775807 {
            Some(d.mant as i64)
        } else {
            None
        }
    }
}

fn to_i64(d: &Dec) -> (r: Option<i64>)
    ensures
        r == dec_to_i64(*d),
{
    if d.scale != 0 {
        None
    } else if d.neg {
        if d.mant == 9223372036854775808 {
            Some(i64::MIN)
        } else if d.mant < 9223372036854775808 {
            Some(-(d.mant as i64))
        } else {
            None
        }
    } else {
        if d.mant <= 9223372036854775807 {
            Some(d.mant as i64)
        } else {
            None
        }
    }
}

/// Scan the top-level members for the `success` flag; every other member is
/// read and discarded.  A missing flag surfaces as `None` in the state; a
/// duplicated flag, like any grammar fault, makes the whole body malformed.
pub open spec fn spec_guard_members(s: Seq<char>, i: int, found: Option<bool>) -> Option<
    (Option<bool>, int),
>
    decreases s.len() - i,
{
    match spec_member_key(s, i) {
        None => None,
        Some((key, jv)) => {
            if jv <= i || jv > s.len() {
                None
            } else {
                let step = if key == "success"@ {
                    if found is Some {
                        None
                    } else {
                        match spec_bool(s, jv) {
                            None => None,
                            Some((b, je)) => Some((Some(b), je)),
                        }
                    }
                } else {
                    match spec_skip_value(s, jv) {
                        None => None,
                        Some(je) => Some((found, je)),
                    }
                };
                match step {
                    None => None,
                    Some((f2, je)) => match spec_member_sep(s, je) {
                        None => None,
                        Some((more, jn)) => {
                            if more {
                                if jn <= i {
                                    None
                                } else {
                                    spec_guard_members(s, jn, f2)
                                }
                            } else {
                                Some((f2, jn))
                            }
                        },
                    },
                }
            }
        },
    }
}

fn guard_members(s: &Vec<char>, i: usize, found: Option<bool>) -> (r: Option<(Option<bool>, usize)>)
    requires
        i <= s@.len(),
    ensures
        ({
            let sp = spec_guard_members(s@, i as int, found);
            match r {
                None => sp is None,
                Some(p) => sp == Some((p.0, p.1 as int)) && p.1 <= s@.len(),
            }
        }),
    decreases s@.len() - i,
{
    let kw = str_to_chars("success");
    match pkey(s, i) {
        None => None,
        Some((key, jv)) => {
            if jv <= i {
                None
            } else {
                let step: Option<(Option<bool>, usize)> = if crate::text::chars_eq(&key, &kw) {
                    if found.is_some() {
                        None
                    } else {
                        match pbool(s, jv) {
                            None => None,
                            Some((b, je)) => Some((Some(b), je)),
                        }
                    }
                } else {
                    match skip_value(s, jv) {
                        None => None,
                        Some(je) => Some((found, je)),
                    }
                };
                match step {
                    None => None,
                    Some((f2, je)) => match psep(s, je) {
                        None => None,
                        Some((more, jn)) => {
                            if more {
                                if jn <= i {
                                    None
                                } else {
                                    guard_members(s, jn, f2)
                                }
                            } else {
                                Some((f2, jn))
                            }
                        },
                    },
                }
            }
        },
    }
}

/// What probing the `success` flag of a whole body yields.
pub open spec fn spec_parse_guard(s: Seq<char>) -> Option<bool> {
    match spec_object_open(s, 0) {
        None => None,
        Some((empty, p)) => {
            if empty {
                None
            } else {
                match spec_guard_members(s, p, None) {
                    None => None,
                    Some((found, e)) => {
                        if spec_skip_ws(s, e) == s.len() {
                            found
                        } else {
                            None
                        }
                    },
                }
            }
        },
    }
}

/// Probe the boolean `success` flag of a response body.  Returns `None`
/// exactly when the body is malformed: not the object shape, a grammar
/// fault anywhere in it, the flag missing or not a boolean, or trailing
/// text after the object.
pub fn parse_success_guard(body: &str) -> (r: Option<SuccessGuard>)
    ensures
        match r {
            None => spec_parse_guard(body@) is None,
            Some(g) => spec_parse_guard(body@) == Some(g.success),
        },
{
    let s = str_to_chars(body);
    match popen(&s, 0) {
        None => None,
        Some((empty, p)) => {
            if empty {
                None
            } else {
                match guard_members(&s, p, None) {
                    None => None,
                    Some((found, e)) => {
                        if skip_ws(&s, e) == s.len() {
                            match found {
                                None => None,
                                Some(b) => Some(SuccessGuard { success: b }),
                            }
                        } else {
                            None
                        }
                    },
                }
            }
        },
    }
}

/// View of an optional owned string.
pub open spec fn opt_str_view(o: Option<String>) -> Option<Seq<char>> {
    match o {
        None => None,
        Some(x) => Some(x@),
    }
}

/// Scan the members of the error body for `code` and `info`; every other
/// member is read and discarded, and a duplicate of a wanted member is
/// malformed.
pub open spec fn spec_errbody_members(
    s: Seq<char>,
    i: int,
    code: Option<u16>,
    info: Option<Seq<char>>,
) -> Option<((Option<u16>, Option<Seq<char>>), int)>
    decreases s.len() - i,
{
    match spec_member_key(s, i) {
        None => None,
        Some((key, jv)) => {
            if jv <= i || jv > s.len() {
                None
            } else {
                let step = if key == "code"@ {
                    if code is Some {
                        None
                    } else {
                        match spec_number_ws(s, jv) {
                            None => None,
                            Some((d, je)) => match dec_to_u16(d) {
                                None => None,
                                Some(c) => Some(((Some(c), info), je)),
                            },
                        }
                    }
                } else if key == "info"@ {
                    if info is Some {
                        None
                    } else {
                        match spec_string_ws(s, jv) {
                            None => None,
                            Some((txt, je)) => Some(((code, Some(txt)), je)),
                        }
                    }
                } else {
                    match spec_skip_value(s, jv) {
                        None => None,
                        Some(je) => Some(((code, info), je)),
                    }
                };
                match step {
                    None => None,
                    Some((st2, je)) => match spec_member_sep(s, je) {
                        None => None,
                        Some((more, jn)) => {
                            if more {
                                if jn <= i {
                                    None
                                } else {
                                    spec_errbody_members(s, jn, st2.0, st2.1)
                                }
                            } else {
                                Some((st2, jn))
                            }
                        },
                    },
                }
            }
        },
    }
}

fn errbody_members(s: &Vec<char>, i: usize, code: Option<u16>, info: Option<String>) -> (r: Option<
    ((Option<u16>, Option<String>), usize),
>)
    requires
        i <= s@.len(),
    ensures
        ({
            let sp = spec_errbody_members(s@, i as int, code, opt_str_view(info));
            match r {
                None => sp is None,
                Some(p) => sp == Some(((p.0.0, opt_str_view(p.0.1)), p.1 as int)) && p.1
                    <= s@.len(),
            }
        }),
    decreases s@.len() - i,
{
    let kw_code = str_to_chars("code");
    let kw_info = str_to_chars("info");
    match pkey(s, i) {
        None => None,
        Some((key, jv)) => {
            if jv <= i {
                None
            } else {
                let step: Option<((Option<u16>, Option<String>), usize)> = if crate::text::chars_eq(
                    &key,
                    &kw_code,
                ) {
                    if code.is_some() {
                        None
                    } else {
                        match pnumber(s, jv) {
                            None => None,
                            Some((d, je)) => match to_u16(&d) {
                                None => None,
                                Some(c) => Some(((Some(c), info), je)),
                            },
                        }
                    }
                } else if crate::text::chars_eq(&key, &kw_info) {
                    if info.is_some() {
                        None
                    } else {
                        match pstring_ws(s, jv) {
                            None => None,
                            Some((txt, je)) => Some(
                                ((code, Some(chars_to_string(&txt))), je),
                            ),
                        }
                    }
                } else {
                    match skip_value(s, jv) {
                        None => None,
                        Some(je) => Some(((code, info), je)),
                    }
                };
                match step {
                    None => None,
                    Some((st2, je)) => match psep(s, je) {
                        None => None,
                        Some((more, jn)) => {
                            if more {
                                if jn <= i {
                                    None
                                } else {
                                    errbody_members(s, jn, st2.0, st2.1)
                                }
                            } else {
                                Some((st2, jn))
                            }
                        },
                    },
                }
            }
        },
    }
}

/// Read the error body object: both `code` and `info` must be present.
pub open spec fn spec_parse_errbody(s: Seq<char>, i: int) -> Option<((u16, Seq<char>), int)> {
    match spec_object_open(s, i) {
        None => None,
        Some((empty, p)) => {
            if empty {
                None
            } else {
                match spec_errbody_members(s, p, None, None) {
                    None => None,
                    Some(((co, io), e)) => match co {
                        None => None,
                        Some(c) => match io {
                            None => None,
                            Some(inf) => Some(((c, inf), e)),
                        },
                    },
                }
            }
        },
    }
}

fn parse_errbody(s: &Vec<char>, i: usize) -> (r: Option<((u16, String), usize)>)
    requires
        i <= s@.len(),
    ensures
        ({
            let sp = spec_parse_errbody(s@, i as int);
            match r {
                None => sp is None,
                Some(p) => sp == Some(((p.0.0, p.0.1@), p.1 as int)) && p.1 <= s@.len(),
            }
        }),
{
    match popen(s, i) {
        None => None,
        Some((empty, p)) => {
            if empty {
                None
            } else {
                match errbody_members(s, p, None, None) {
                    None => None,
                    Some(((co, io), e)) => match co {
                        None => None,
                        Some(c) => match io {
                            None => None,
                            Some(inf) => Some(((c, inf), e)),
                        },
                    },
                }
            }
        },
    }
}

/// View of an optional code/message pair.
pub open spec fn opt_err_view(o: Option<(u16, String)>) -> Option<(u16, Seq<char>)> {
    match o {
        None => None,
        Some(p) => Some((p.0, p.1@)),
    }
}

/// Scan the top-level members for `error`; every other member is read and
/// discarded.
pub open spec fn spec_error_members(s: Seq<char>, i: int, found: Option<(u16, Seq<char>)>) -> Option<
    (Option<(u16, Seq<char>)>, int),
>
    decreases s.len() - i,
{
    match spec_member_key(s, i) {
        None => None,
        Some((key, jv)) => {
            if jv <= i || jv > s.len() {
                None
            } else {
                let step = if key == "error"@ {
                    if found is Some {
                        None
                    } else {
                        match spec_parse_errbody(s, jv) {
                            None => None,
                            Some((ci, je)) => Some((Some(ci), je)),
                        }
                    }
                } else {
                    match spec_skip_value(s, jv) {
                        None => None,
                        Some(je) => Some((found, je)),
                    }
                };
                match step {
                    None => None,
                    Some((f2, je)) => match spec_member_sep(s, je) {
                        None => None,
                        Some((more, jn)) => {
                            if more {
                                if jn <= i {
                                    None
                                } else {
                                    spec_error_members(s, jn, f2)
                                }
                            } else {
                                Some((f2, jn))
                            }
                        },
                    },
                }
            }
        },
    }
}

fn error_members(s: &Vec<char>, i: usize, found: Option<(u16, String)>) -> (r: Option<
    (Option<(u16, String)>, usize),
>)
    requires
        i <= s@.len(),
    ensures
        ({
            let sp = spec_error_members(s@, i as int, opt_err_view(found));
            match r {
                None => sp is None,
                Some(p) => sp == Some((opt_err_view(p.0), p.1 as int)) && p.1 <= s@.len(),
            }
        }),
    decreases s@.len() - i,
{
    let kw = str_to_chars("error");
    match pkey(s, i) {
        None => None,
        Some((key, jv)) => {
            if jv <= i {
                None
            } else {
                let step: Option<(Option<(u16, String)>, usize)> = if crate::text::chars_eq(
                    &key,
                    &kw,
                ) {
                    if found.is_some() {
                        None
                    } else {
                        match parse_errbody(s, jv) {
                            None => None,
                            Some((ci, je)) => Some((Some(ci), je)),
                        }
                    }
                } else {
                    match skip_value(s, jv) {
                        None => None,
                        Some(je) => Some((found, je)),
                    }
                };
                match step {
                    None => None,
                    Some((f2, je)) => match psep(s, je) {
                        None => None,
                        Some((more, jn)) => {
                            if more {
                                if jn <= i {
                                    None
                                } else {
                                    error_members(s, jn, f2)
                                }
                            } else {
                                Some((f2, jn))
                            }
                        },
                    },
                }
            }
        },
    }
}

/// What reading the failure shape of a whole body yields: the upstream code
/// and message, verbatim.
pub open spec fn spec_parse_error(s: Seq<char>) -> Option<(u16, Seq<char>)> {
    match spec_object_open(s, 0) {
        None => None,
        Some((empty, p)) => {
            if empty {
                None
            } else {
                match spec_error_members(s, p, None) {
                    None => None,
                    Some((found, e)) => {
                        if spec_skip_ws(s, e) == s.len() {
                            found
                        } else {
                            None
                        }
                    },
                }
            }
        },
    }
}

/// Read the failure shape: `{"success": false, "error": {"code": ...,
/// "info": ...}}`.  Returns `None` exactly when the body is malformed for
/// that shape.
pub fn parse_error_response(body: &str) -> (r: Option<ErrorResponse>)
    ensures
        match r {
            None => spec_parse_error(body@) is None,
            Some(er) => spec_parse_error(body@) == Some((er.error.code, er.error.info@)),
        },
{
    let s = str_to_chars(body);
    match popen(&s, 0) {
        None => None,
        Some((empty, p)) => {
            if empty {
                None
            } else {
                match error_members(&s, p, None) {
                    None => None,
                    Some((found, e)) => {
                        if skip_ws(&s, e) == s.len() {
                            match found {
                                None => None,
                                Some((c, inf)) => Some(
                                    ErrorResponse { error: ErrorBody { code: c, info: inf } },
                                ),
                            }
                        } else {
                            None
                        }
                    },
                }
            }
        },
    }
}

/// View of a raw quote list: pair key and multiplier.
pub open spec fn qview(q: Seq<(String, Dec)>) -> Seq<(Seq<char>, Dec)> {
    q.map_values(|p: (String, Dec)| (p.0@, p.1))
}

/// Every multiplier in a raw quote list is a well-formed decimal.
pub open spec fn q_all_wf(q: Seq<(Seq<char>, Dec)>) -> bool {
    forall|j: int| 0 <= j < q.len() ==> dec_wf(#[trigger] q[j].1)
}

/// Position of key `k` in a raw quote list, `-1` when absent.
pub open spec fn spec_find_q(s: Seq<(Seq<char>, Dec)>, k: Seq<char>, i: int) -> int
    decreases s.len() - i,
{
    if i < 0 || i >= s.len() {
        -1
    } else if s[i].0 == k {
        i
    } else {
        spec_find_q(s, k, i + 1)
    }
}

/// Insert or replace a raw quote, the way a map keyed by the pair code
/// would: a later occurrence of a key replaces the earlier one.
pub open spec fn spec_upsert_q(s: Seq<(Seq<char>, Dec)>, k: Seq<char>, d: Dec) -> Seq<
    (Seq<char>, Dec),
> {
    let idx = spec_find_q(s, k, 0);
    if idx == -1 {
        s.push((k, d))
    } else {
        s.update(idx, (k, d))
    }
}

fn upsert_quote(acc: &mut Vec<(String, Dec)>, k: String, d: Dec)
    ensures
        qview(final(acc)@) == spec_upsert_q(qview(old(acc)@), k@, d),
        q_all_wf(qview(old(acc)@)) && dec_wf(d) ==> q_all_wf(qview(final(acc)@)),
{
    let n = acc.len();
    let mut i: usize = 0;
    while i < n
        invariant
            n == acc@.len(),
            i <= n,
            acc@ == old(acc)@,
            spec_find_q(qview(acc@), k@, 0) == spec_find_q(qview(acc@), k@, i as int),
        decreases n - i,
    {
        if acc[i].0 == k {
            proof {
                assert(qview(acc@)[i as int].0 == k@);
                assert(spec_find_q(qview(acc@), k@, i as int) == i as int);
            }
            acc.remove(i);
            acc.insert(i, (k, d));
            proof {
                assert(acc@ =~= old(acc)@.update(i as int, (k, d)));
                assert(qview(acc@) =~= spec_upsert_q(qview(old(acc)@), k@, d));
            }
            return;
        }
        i = i + 1;
    }
    acc.push((k, d));
    proof {
        assert(spec_find_q(qview(old(acc)@), k@, 0) == -1);
        assert(qview(acc@) =~= spec_upsert_q(qview(old(acc)@), k@, d));
    }
}

/// Scan the quote object's members: every member is a pair key with a
/// numeric multiplier, collected in order with a later duplicate key
/// replacing the earlier.
pub open spec fn spec_quotes_members(s: Seq<char>, i: int, acc: Seq<(Seq<char>, Dec)>) -> Option<
    (Seq<(Seq<char>, Dec)>, int),
>
    decreases s.len() - i,
{
    match spec_member_key(s, i) {
        None => None,
        Some((key, jv)) => {
            if jv <= i || jv > s.len() {
                None
            } else {
                match spec_number_ws(s, jv) {
                    None => None,
                    Some((d, je)) => {
                        let acc2 = spec_upsert_q(acc, key, d);
                        match spec_member_sep(s, je) {
                            None => None,
                            Some((more, jn)) => {
                                if more {
                                    if jn <= i {
                                        None
                                    } else {
                                        spec_quotes_members(s, jn, acc2)
                                    }
                                } else {
                                    Some((acc2, jn))
                                }
                            },
                        }
                    },
                }
            }
        },
    }
}

fn quotes_members(s: &Vec<char>, i: usize, acc: Vec<(String, Dec)>) -> (r: Option<
    (Vec<(String, Dec)>, usize),
>)
    requires
        i <= s@.len(),
        q_all_wf(qview(acc@)),
    ensures
        ({
            let sp = spec_quotes_members(s@, i as int, qview(acc@));
            match r {
                None => sp is None,
                Some(p) => sp == Some((qview(p.0@), p.1 as int)) && p.1 <= s@.len() && q_all_wf(
                    qview(p.0@),
                ),
            }
        }),
    decreases s@.len() - i,
{
    match pkey(s, i) {
        None => None,
        Some((key, jv)) => {
            if jv <= i {
                None
            } else {
                match pnumber(s, jv) {
                    None => None,
                    Some((d, je)) => {
                        let mut acc2 = acc;
                        let key_s = chars_to_string(&key);
                        upsert_quote(&mut acc2, key_s, d);
                        match psep(s, je) {
                            None => None,
                            Some((more, jn)) => {
                                if more {
                                    if jn <= i {
                                        None
                                    } else {
                                        quotes_members(s, jn, acc2)
                                    }
                                } else {
                                    Some((acc2, jn))
                                }
                            },
                        }
                    },
                }
            }
        },
    }
}

/// Read the quote object: a possibly empty map from pair key to multiplier.
pub open spec fn spec_parse_quotes(s: Seq<char>, i: int) -> Option<(Seq<(Seq<char>, Dec)>, int)> {
    match spec_object_open(s, i) {
        None => None,
        Some((empty, p)) => {
            if empty {
                Some((Seq::empty(), p))
            } else {
                spec_quotes_members(s, p, Seq::empty())
            }
        },
    }
}

fn parse_quotes(s: &Vec<char>, i: usize) -> (r: Option<(Vec<(String, Dec)>, usize)>)
    requires
        i <= s@.len(),
    ensures
        ({
            let sp = spec_parse_quotes(s@, i as int);
            match r {
                None => sp is None,
                Some(p) => sp == Some((qview(p.0@), p.1 as int)) && p.1 <= s@.len() && q_all_wf(
                    qview(p.0@),
                ),
            }
        }),
{
    match popen(s, i) {
        None => None,
        Some((empty, p)) => {
            if empty {
                let v: Vec<(String, Dec)> = Vec::new();
                proof {
                    assert(qview(v@) =~= Seq::<(Seq<char>, Dec)>::empty());
                }
                Some((v, p))
            } else {
                let v: Vec<(String, Dec)> = Vec::new();
                proof {
                    assert(qview(v@) =~= Seq::<(Seq<char>, Dec)>::empty());
                }
                quotes_members(s, p, v)
            }
        },
    }
}

/// View of an optional raw quote list.
pub open spec fn opt_q_view(o: Option<Vec<(String, Dec)>>) -> Option<Seq<(Seq<char>, Dec)>> {
    match o {
        None => None,
        Some(v) => Some(qview(v@)),
    }
}

/// Scan the top-level members for `timestamp` and `quotes`; every other
/// member is read and discarded.
pub open spec fn spec_rates_members(
    s: Seq<char>,
    i: int,
    ts: Option<i64>,
    q: Option<Seq<(Seq<char>, Dec)>>,
) -> Option<((Option<i64>, Option<Seq<(Seq<char>, Dec)>>), int)>
    decreases s.len() - i,
{
    match spec_member_key(s, i) {
        None => None,
        Some((key, jv)) => {
            if jv <= i || jv > s.len() {
                None
            } else {
                let step = if key == "timestamp"@ {
                    if ts is Some {
                        None
                    } else {
                        match spec_number_ws(s, jv) {
                            None => None,
                            Some((d, je)) => match dec_to_i64(d) {
                                None => None,
                                Some(t) => Some(((Some(t), q), je)),
                            },
                        }
                    }
                } else if key == "quotes"@ {
                    if q is Some {
                        None
                    } else {
                        match spec_parse_quotes(s, jv) {
                            None => None,
                            Some((qs, je)) => Some(((ts, Some(qs)), je)),
                        }
                    }
                } else {
                    match spec_skip_value(s, jv) {
                        None => None,
                        Some(je) => Some(((ts, q), je)),
                    }
                };
                match step {
                    None => None,
                    Some((st2, je)) => match spec_member_sep(s, je) {
                        None => None,
                        Some((more, jn)) => {
                            if more {
                                if jn <= i {
                                    None
                                } else {
                                    spec_rates_members(s, jn, st2.0, st2.1)
                                }
                            } else {
                                Some((st2, jn))
                            }
                        },
                    },
                }
            }
        },
    }
}

fn rates_members(s: &Vec<char>, i: usize, ts: Option<i64>, q: Option<Vec<(String, Dec)>>) -> (r:
    Option<((Option<i64>, Option<Vec<(String, Dec)>>), usize)>)
    requires
        i <= s@.len(),
        match q {
            Some(v) => q_all_wf(qview(v@)),
            None => true,
        },
    ensures
        ({
            let sp = spec_rates_members(s@, i as int, ts, opt_q_view(q));
            match r {
                None => sp is None,
                Some(p) => sp == Some(((p.0.0, opt_q_view(p.0.1)), p.1 as int)) && p.1 <= s@.len()
                    && (match p.0.1 {
                    Some(v) => q_all_wf(qview(v@)),
                    None => true,
                }),
            }
        }),
    decreases s@.len() - i,
{
    let kw_ts = str_to_chars("timestamp");
    let kw_q = str_to_chars("quotes");
    match pkey(s, i) {
        None => None,
        Some((key, jv)) => {
            if jv <= i {
                None
            } else {
                let step: Option<((Option<i64>, Option<Vec<(String, Dec)>>), usize)> = if crate::text::chars_eq(
                    &key,
                    &kw_ts,
                ) {
                    if ts.is_some() {
                        None
                    } else {
                        match pnumber(s, jv) {
                            None => None,
                            Some((d, je)) => match to_i64(&d) {
                                None => None,
                                Some(t) => Some(((Some(t), q), je)),
                            },
                        }
                    }
                } else if crate::text::chars_eq(&key, &kw_q) {
                    if q.is_some() {
                        None
                    } else {
                        match parse_quotes(s, jv) {
                            None => None,
                            Some((qs, je)) => Some(((ts, Some(qs)), je)),
                        }
                    }
                } else {
                    match skip_value(s, jv) {
                        None => None,
                        Some(je) => Some(((ts, q), je)),
                    }
                };
                match step {
                    None => None,
                    Some((st2, je)) => match psep(s, je) {
                        None => None,
                        Some((more, jn)) => {
                            if more {
                                if jn <= i {
                                    None
                                } else {
                                    rates_members(s, jn, st2.0, st2.1)
                                }
                            } else {
                                Some((st2, jn))
                            }
                        },
                    },
                }
            }
        },
    }
}

/// What reading the success shape of a whole body yields: the upstream
/// timestamp and the raw quote list; both members must be present.
pub open spec fn spec_parse_rates(s: Seq<char>) -> Option<(i64, Seq<(Seq<char>, Dec)>)> {
    match spec_object_open(s, 0) {
        None => None,
        Some((empty, p)) => {
            if empty {
                None
            } else {
                match spec_rates_members(s, p, None, None) {
                    None => None,
                    Some(((ts, q), e)) => {
                        if spec_skip_ws(s, e) == s.len() {
                            match ts {
                                None => None,
                                Some(t) => match q {
                                    None => None,
                                    Some(qs) => Some((t, qs)),
                                },
                            }
                        } else {
                            None
                        }
                    },
                }
            }
        },
    }
}

/// Read the success shape: `{"success": true, "timestamp": ...,
/// "quotes": {...}}`.  Returns `None` exactly when the body is malformed
/// for that shape.
pub fn parse_rates_response(body: &str) -> (r: Option<CurrencyRatesResponse>)
    ensures
        match r {
            None => spec_parse_rates(body@) is None,
            Some(resp) => spec_parse_rates(body@) == Some((resp.timestamp, qview(resp.quotes@)))
                && q_all_wf(qview(resp.quotes@)),
        },
{
    let s = str_to_chars(body);
    match popen(&s, 0) {
        None => None,
        Some((empty, p)) => {
            if empty {
                None
            } else {
                match rates_members(&s, p, None, None) {
                    None => None,
                    Some(((ts, q), e)) => {
                        if skip_ws(&s, e) == s.len() {
                            match ts {
                                None => None,
                                Some(t) => match q {
                                    None => None,
                                    Some(qs) => Some(
                                        CurrencyRatesResponse { timestamp: t, quotes: qs },
                                    ),
                                },
                            }
                        } else {
                            None
                        }
                    },
                }
            }
        },
    }
}

} // verus!
