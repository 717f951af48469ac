//! Building the request query: the comma-joined currency list, the fixed
//! format flag, the access key, and, for the historical endpoint, the date
//! with month and day zero-padded to two digits.

use vstd::prelude::*;

use crate::normalize::req_view;
use crate::text::chars_to_string;

verus! {

/// The character for a single decimal digit.
pub open spec fn digit_char(d: int) -> char {
    if d == 0 {
        '0'
    } else if d == 1 {
        '1'
    } else if d == 2 {
        '2'
    } else if d == 3 {
        '3'
    } else if d == 4 {
        '4'
    } else if d == 5 {
        '5'
    } else if d == 6 {
        '6'
    } else if d == 7 {
        '7'
    } else if d == 8 {
        '8'
    } else {
        '9'
    }
}

/// The decimal digits of `n`, most significant first, with no leading zero.
pub open spec fn spec_digits_of(n: nat) -> Seq<char>
    decreases n,
{
    if n < 10 {
        seq![digit_char(n as int)]
    } else {
        spec_digits_of(n / 10).push(digit_char((n % 10) as int))
    }
}

/// The decimal digits of `n`, zero-padded on the left to two digits.
pub open spec fn spec_pad2(n: nat) -> Seq<char> {
    if n < 10 {
        seq!['0'] + spec_digits_of(n)
    } else {
        spec_digits_of(n)
    }
}

/// `year-month-day` with month and day zero-padded to two digits.
pub open spec fn spec_date(y: u16, m: u16, d: u16) -> Seq<char> {
    spec_digits_of(y as nat) + seq!['-'] + spec_pad2(m as nat) + seq!['-'] + spec_pad2(d as nat)
}

/// The requested codes joined with commas, from position `i` on.
pub open spec fn spec_join_from(items: Seq<Seq<char>>, i: int) -> Seq<char>
    decreases items.len() - i,
{
    if i < 0 || i >= items.len() {
        Seq::empty()
    } else if i == items.len() - 1 {
        items[i]
    } else {
        items[i] + seq![','] + spec_join_from(items, i + 1)
    }
}

/// View of a query-parameter list.
pub open spec fn pairs_view(q: Seq<(String, String)>) -> Seq<(Seq<char>, Seq<char>)> {
    q.map_values(|p: (String, String)| (p.0@, p.1@))
}

/// The whole query: the comma-joined codes, the fixed `format` flag, the
/// access key, and the date for a historical request.
pub open spec fn spec_query(
    key: Seq<char>,
    codes: Seq<Seq<char>>,
    date: Option<(u16, u16, u16)>,
) -> Seq<(Seq<char>, Seq<char>)> {
    let base = seq![
        ("currencies"@, spec_join_from(codes, 0)),
        ("format"@, "1"@),
        ("access_key"@, key),
    ];
    match date {
        None => base,
        Some(d) => base.push(("date"@, spec_date(d.0, d.1, d.2))),
    }
}

fn digit_char_c(d: u16) -> (c: char)
    requires
        d < 10,
    ensures
        c == digit_char(d as int),
{
    if d == 0 {
        '0'
    } else if d == 1 {
        '1'
    } else if d == 2 {
        '2'
    } else if d == 3 {
        '3'
    } else if d == 4 {
        '4'
    } else if d == 5 {
        '5'
    } else if d == 6 {
        '6'
    } else if d == 7 {
        '7'
    } else if d == 8 {
        '8'
    } else {
        '9'
    }
}

fn push_digits(n: u16, out: &mut Vec<char>)
    ensures
        final(out)@ == old(out)@ + spec_digits_of(n as nat),
    decreases n,
{
    if n < 10 {
        out.push(digit_char_c(n));
        proof {
            assert(final(out)@ =~= old(out)@ + spec_digits_of(n as nat));
        }
    } else {
        push_digits(n / 10, out);
        out.push(digit_char_c(n % 10));
        proof {
            assert(final(out)@ =~= old(out)@ + spec_digits_of(n as nat));
        }
    }
}

/// The date parameter's value, month and day zero-padded to two digits.
pub fn date_string(y: u16, m: u16, d: u16) -> (r: String)
    ensures
        r@ == spec_date(y, m, d),
{
    let mut out: Vec<char> = Vec::new();
    push_digits(y, &mut out);
    out.push('-');
    if m < 10 {
        out.push('0');
    }
    push_digits(m, &mut out);
    out.push('-');
    if d < 10 {
        out.push('0');
    }
    push_digits(d, &mut out);
    proof {
        assert(out@ =~= spec_date(y, m, d));
    }
    chars_to_string(&out)
}

fn join_into(v: &Vec<String>, i: usize, out: Vec<char>) -> (r: Vec<char>)
    requires
        i <= v@.len(),
    ensures
        r@ == out@ + spec_join_from(req_view(v@), i as int),
    decreases v@.len() - i,
{
    if i >= v.len() {
        proof {
            assert(out@ + spec_join_from(req_view(v@), i as int) =~= out@);
        }
        out
    } else {
        let mut o = out;
        let mut cs = crate::text::str_to_chars(v[i].as_str());
        proof {
            assert(req_view(v@)[i as int] == v@[i as int]@);
        }
        o.append(&mut cs);
        if i + 1 < v.len() {
            o.push(',');
        }
        let r = join_into(v, i + 1, o);
        proof {
            assert(r@ =~= out@ + spec_join_from(req_view(v@), i as int));
        }
        r
    }
}

/// The comma-joined requested codes, in order.
pub fn join_codes(v: &Vec<String>) -> (r: String)
    ensures
        r@ == spec_join_from(req_view(v@), 0),
{
    let out = join_into(v, 0, Vec::new());
    chars_to_string(&out)
}

/// Build the query-parameter list for one request.
pub fn build_query(key: &String, currencies: &Vec<String>, date: Option<(u16, u16, u16)>) -> (q:
    Vec<(String, String)>)
    ensures
        pairs_view(q@) == spec_query(key@, req_view(currencies@), date),
{
    let mut q: Vec<(String, String)> = Vec::new();
    q.push((String::from_str("currencies"), join_codes(currencies)));
    q.push((String::from_str("format"), String::from_str("1")));
    q.push((String::from_str("access_key"), key.clone()));
    match date {
        None => {
            proof {
                assert(pairs_view(q@) =~= spec_query(key@, req_view(currencies@), date));
            }
        },
        Some(dt) => {
            q.push((String::from_str("date"), date_string(dt.0, dt.1, dt.2)));
            proof {
                assert(pairs_view(q@) =~= spec_query(key@, req_view(currencies@), date));
            }
        },
    }
    q
}

} // verus!
