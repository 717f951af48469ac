//! The rate normalizer: from raw base-relative quotes to the requested
//! currency pairs' exchange rates.
//!
//! The policy implemented is base-relative passthrough: the service's
//! implicit base (`USD` on the free tier) is fixed, every raw pair key is
//! split into its source and target codes and resolved against the currency
//! registry, the degenerate self-pair is dropped, and one exchange rate is
//! kept per requested target code.  A requested code (other than the base)
//! with no surviving quote fails the whole call: partial results are never
//! returned.

use vstd::prelude::*;

use crate::decimal::Dec;
use crate::json::qview;
use crate::text::{chars_to_string, str_to_chars};
use crate::types::{
    contains_key, quotes_view, rate_view, spec_get_from, spec_new_rate, CurrencyRates,
    CurrencyRatesResponse, CurrencyRatesV, ExchangeRate, RateV,
};
use crate::{err_view, CurrencyLayerError, ErrV};

verus! {

/// The service's implicit base currency code.
pub open spec fn base_code() -> Seq<char> {
    "USD"@
}

/// View of a requested-code list.
pub open spec fn req_view(req: Seq<String>) -> Seq<Seq<char>> {
    req.map_values(|c: String| c@)
}

/// Whether `c` occurs among the requested codes.
pub open spec fn contains_code(req: Seq<Seq<char>>, c: Seq<char>) -> bool {
    exists|j: int| 0 <= j < req.len() && req[j] == c
}

fn has_code(req: &Vec<String>, code: &String) -> (r: bool)
    ensures
        r == contains_code(req_view(req@), code@),
{
    let mut i: usize = 0;
    while i < req.len()
        invariant
            i <= req@.len(),
            forall|j: int| 0 <= j < i ==> req_view(req@)[j] != code@,
        decreases req@.len() - i,
    {
        if req[i] == *code {
            proof {
                assert(req_view(req@)[i as int] == code@);
            }
            return true;
        }
        i = i + 1;
    }
    false
}

/// Position of key `k` among the built entries, `-1` when absent.
pub open spec fn spec_find_e(s: Seq<(Seq<char>, RateV)>, k: Seq<char>, i: int) -> int
    decreases s.len() - i,
{
    if i < 0 || i >= s.len() {
        -1
    } else if s[i].0 == k {
        i
    } else {
        spec_find_e(s, k, i + 1)
    }
}

/// Insert or replace an entry, a later occurrence of a key replacing the
/// earlier one.
pub open spec fn spec_upsert_e(s: Seq<(Seq<char>, RateV)>, k: Seq<char>, v: RateV) -> Seq<
    (Seq<char>, RateV),
> {
    let idx = spec_find_e(s, k, 0);
    if idx == -1 {
        s.push((k, v))
    } else {
        s.update(idx, (k, v))
    }
}

fn upsert_entry(acc: &mut Vec<(String, ExchangeRate)>, k: String, er: ExchangeRate)
    ensures
        quotes_view(final(acc)@) == spec_upsert_e(quotes_view(old(acc)@), k@, rate_view(er)),
{
    let n = acc.len();
    let mut i: usize = 0;
    while i < n
        invariant
            n == acc@.len(),
            i <= n,
            acc@ == old(acc)@,
            spec_find_e(quotes_view(acc@), k@, 0) == spec_find_e(quotes_view(acc@), k@, i as int),
        decreases n - i,
    {
        if acc[i].0 == k {
            proof {
                assert(quotes_view(acc@)[i as int].0 == k@);
                assert(spec_find_e(quotes_view(acc@), k@, i as int) == i as int);
            }
            acc.remove(i);
            acc.insert(i, (k, er));
            proof {
                assert(acc@ =~= old(acc)@.update(i as int, (k, er)));
                assert(quotes_view(acc@) =~= spec_upsert_e(
                    quotes_view(old(acc)@),
                    k@,
                    rate_view(er),
                ));
            }
            return;
        }
        i = i + 1;
    }
    acc.push((k, er));
    proof {
        assert(spec_find_e(quotes_view(old(acc)@), k@, 0) == -1);
        assert(quotes_view(acc@) =~= spec_upsert_e(quotes_view(old(acc)@), k@, rate_view(er)));
    }
}

/// Build the entries from the raw quotes, left to right.  A key that is not
/// six characters is malformed; a self-pair is dropped before any lookup, as
/// the implicit base quoted against itself is expected; both codes of every
/// other pair must resolve; and only pairs whose target was requested (and
/// is not the base itself) are kept.
pub open spec fn spec_build(
    req: Seq<Seq<char>>,
    quotes: Seq<(Seq<char>, Dec)>,
    i: int,
    acc: Seq<(Seq<char>, RateV)>,
) -> Result<Seq<(Seq<char>, RateV)>, ErrV>
    decreases quotes.len() - i,
{
    if i < 0 || i >= quotes.len() {
        Ok(acc)
    } else {
        let k = quotes[i].0;
        let d = quotes[i].1;
        if k.len() != 6 {
            Err(ErrV::Parse)
        } else {
            let f = k.subrange(0, 3);
            let t = k.subrange(3, 6);
            if f == t {
                spec_build(req, quotes, i + 1, acc)
            } else {
                match spec_new_rate(f, t, d) {
                    Err(e) => Err(e),
                    Ok(rv) => {
                        if contains_code(req, t) && t != base_code() {
                            spec_build(req, quotes, i + 1, spec_upsert_e(acc, t, rv))
                        } else {
                            spec_build(req, quotes, i + 1, acc)
                        }
                    },
                }
            }
        }
    }
}

/// First requested code (other than the base) that has no entry.
pub open spec fn spec_missing(
    req: Seq<Seq<char>>,
    i: int,
    entries: Seq<(Seq<char>, RateV)>,
) -> Option<Seq<char>>
    decreases req.len() - i,
{
    if i < 0 || i >= req.len() {
        None
    } else if req[i] == base_code() || contains_key(entries, req[i]) {
        spec_missing(req, i + 1, entries)
    } else {
        Some(req[i])
    }
}

/// What normalizing yields: the built entries when every requested code
/// (other than the base) is covered, else an invalid-currency failure
/// naming the first uncovered code.
pub open spec fn spec_normalize(
    req: Seq<Seq<char>>,
    quotes: Seq<(Seq<char>, Dec)>,
    ts: i64,
) -> Result<CurrencyRatesV, ErrV> {
    match spec_build(req, quotes, 0, Seq::empty()) {
        Err(e) => Err(e),
        Ok(entries) => match spec_missing(req, 0, entries) {
            Some(c) => Err(ErrV::InvalidCurrency(c)),
            None => Ok(CurrencyRatesV { timestamp: ts, quotes: entries }),
        },
    }
}

fn has_entry(acc: &Vec<(String, ExchangeRate)>, code: &String) -> (r: bool)
    ensures
        r == contains_key(quotes_view(acc@), code@),
{
    let mut i: usize = 0;
    while i < acc.len()
        invariant
            i <= acc@.len(),
            spec_get_from(quotes_view(acc@), code@, 0) == spec_get_from(
                quotes_view(acc@),
                code@,
                i as int,
            ),
        decreases acc@.len() - i,
    {
        if acc[i].0 == *code {
            proof {
                assert(quotes_view(acc@)[i as int].0 == code@);
            }
            return true;
        }
        i = i + 1;
    }
    false
}

/// Normalize a parsed success response against the requested codes.
pub fn normalize_rates(requested: &Vec<String>, resp: &CurrencyRatesResponse) -> (r: Result<
    CurrencyRates,
    CurrencyLayerError,
>)
    ensures
        match r {
            Ok(cr) => spec_normalize(req_view(requested@), qview(resp.quotes@), resp.timestamp)
                == Ok::<CurrencyRatesV, ErrV>(crate::types::rates_view(cr)),
            Err(e) => spec_normalize(req_view(requested@), qview(resp.quotes@), resp.timestamp)
                == Err::<CurrencyRatesV, ErrV>(err_view(e)),
        },
{
    let ghost rv = req_view(requested@);
    let ghost qv = qview(resp.quotes@);
    let mut acc: Vec<(String, ExchangeRate)> = Vec::new();
    proof {
        assert(quotes_view(acc@) =~= Seq::<(Seq<char>, RateV)>::empty());
    }
    let mut i: usize = 0;
    while i < resp.quotes.len()
        invariant
            i <= resp.quotes@.len(),
            rv == req_view(requested@),
            qv == qview(resp.quotes@),
            spec_build(rv, qv, 0, Seq::empty()) == spec_build(rv, qv, i as int, quotes_view(acc@)),
        decreases resp.quotes@.len() - i,
    {
        let kc = str_to_chars(resp.quotes[i].0.as_str());
        let d = resp.quotes[i].1;
        proof {
            assert(qv[i as int] == (resp.quotes@[i as int].0@, resp.quotes@[i as int].1));
        }
        if kc.len() != 6 {
            return Err(CurrencyLayerError::ParseError);
        }
        let mut fch: Vec<char> = Vec::new();
        fch.push(kc[0]);
        fch.push(kc[1]);
        fch.push(kc[2]);
        let mut tch: Vec<char> = Vec::new();
        tch.push(kc[3]);
        tch.push(kc[4]);
        tch.push(kc[5]);
        proof {
            assert(fch@ =~= kc@.subrange(0, 3));
            assert(tch@ =~= kc@.subrange(3, 6));
        }
        if crate::text::chars_eq(&fch, &tch) {
            i = i + 1;
            continue;
        }
        let from_s = chars_to_string(&fch);
        let to_s = chars_to_string(&tch);
        let to_key = chars_to_string(&tch);
        match ExchangeRate::new(from_s, to_s, d) {
            Err(e) => {
                return Err(e);
            },
            Ok(er) => {
                let base = String::from_str("USD");
                if has_code(requested, &to_key) && !(to_key == base) {
                    upsert_entry(&mut acc, to_key, er);
                }
                i = i + 1;
            },
        }
    }
    let base = String::from_str("USD");
    let ghost entries = quotes_view(acc@);
    proof {
        assert(spec_build(rv, qv, 0, Seq::empty()) == Ok::<Seq<(Seq<char>, RateV)>, ErrV>(entries));
    }
    let mut j: usize = 0;
    while j < requested.len()
        invariant
            j <= requested@.len(),
            rv == req_view(requested@),
            qv == qview(resp.quotes@),
            entries == quotes_view(acc@),
            spec_build(rv, qv, 0, Seq::empty()) == Ok::<Seq<(Seq<char>, RateV)>, ErrV>(entries),
            spec_missing(rv, 0, entries) == spec_missing(rv, j as int, entries),
            base@ == "USD"@,
        decreases requested@.len() - j,
    {
        proof {
            assert(rv[j as int] == requested@[j as int]@);
        }
        if !(requested[j] == base) && !has_entry(&acc, &requested[j]) {
            return Err(
                CurrencyLayerError::InvalidCurrency { symbol: requested[j].clone() },
            );
        }
        j = j + 1;
    }
    Ok(CurrencyRates { timestamp: resp.timestamp, quotes: acc })
}

} // verus!
