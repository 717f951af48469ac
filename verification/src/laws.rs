//! The library's stated laws: what holds of every successful normalization,
//! of every reported failure, and of every conversion.

use vstd::prelude::*;

use crate::decimal::{pow10, round_half_even_div, Dec};
use crate::json::{spec_parse_error, spec_parse_guard};
use crate::normalize::{
    base_code, contains_code, spec_build, spec_find_e, spec_missing, spec_normalize, spec_upsert_e,
};
use crate::registry::iso_exponent;
use crate::types::{contains_key, spec_get_from, spec_new_rate, CurrencyRatesV, ExchangeRate, RateV};
use crate::{spec_rates_from_body, ErrV};

verus! {

/// No two entries share a target code.
pub open spec fn keys_distinct(s: Seq<(Seq<char>, RateV)>) -> bool {
    forall|j: int, l: int| 0 <= j < l < s.len() ==> s[j].0 != s[l].0
}

/// What holds of every built entry: its target was requested and is not the
/// base, it is keyed by its own target code, its pair is not degenerate, and
/// both its codes resolve in the registry.
pub open spec fn entries_ok(req: Seq<Seq<char>>, s: Seq<(Seq<char>, RateV)>) -> bool {
    forall|j: int|
        0 <= j < s.len() ==> {
            &&& contains_code(req, (#[trigger] s[j]).0)
            &&& s[j].0 != base_code()
            &&& s[j].1.to == s[j].0
            &&& s[j].1.from != s[j].1.to
            &&& iso_exponent(s[j].0) is Some
            &&& iso_exponent(s[j].1.from) is Some
        }
}

proof fn lemma_find_e_none(s: Seq<(Seq<char>, RateV)>, k: Seq<char>, i: int)
    requires
        spec_find_e(s, k, i) == -1,
        0 <= i,
    ensures
        forall|j: int| i <= j < s.len() ==> s[j].0 != k,
    decreases s.len() - i,
{
    if i < s.len() {
        lemma_find_e_none(s, k, i + 1);
    }
}

proof fn lemma_find_e_some(s: Seq<(Seq<char>, RateV)>, k: Seq<char>, i: int)
    requires
        0 <= i,
        spec_find_e(s, k, i) != -1,
    ensures
        i <= spec_find_e(s, k, i) < s.len(),
        s[spec_find_e(s, k, i)].0 == k,
    decreases s.len() - i,
{
    if i < s.len() && s[i].0 != k {
        lemma_find_e_some(s, k, i + 1);
    }
}

proof fn lemma_upsert_preserves(req: Seq<Seq<char>>, s: Seq<(Seq<char>, RateV)>, k: Seq<char>, v: RateV)
    requires
        entries_ok(req, s),
        keys_distinct(s),
        contains_code(req, k),
        k != base_code(),
        v.to == k,
        v.from != v.to,
        iso_exponent(k) is Some,
        iso_exponent(v.from) is Some,
    ensures
        entries_ok(req, spec_upsert_e(s, k, v)),
        keys_distinct(spec_upsert_e(s, k, v)),
{
    let idx = spec_find_e(s, k, 0);
    if idx == -1 {
        lemma_find_e_none(s, k, 0);
        assert(entries_ok(req, s.push((k, v))));
        assert(keys_distinct(s.push((k, v))));
    } else {
        lemma_find_e_some(s, k, 0);
        assert(entries_ok(req, s.update(idx, (k, v))));
        assert(keys_distinct(s.update(idx, (k, v))));
    }
}

proof fn lemma_build_ok(
    req: Seq<Seq<char>>,
    quotes: Seq<(Seq<char>, Dec)>,
    i: int,
    acc: Seq<(Seq<char>, RateV)>,
    entries: Seq<(Seq<char>, RateV)>,
)
    requires
        entries_ok(req, acc),
        keys_distinct(acc),
        spec_build(req, quotes, i, acc) == Ok::<Seq<(Seq<char>, RateV)>, ErrV>(entries),
    ensures
        entries_ok(req, entries),
        keys_distinct(entries),
    decreases quotes.len() - i,
{
    if i < 0 || i >= quotes.len() {
    } else {
        let k = quotes[i].0;
        let d = quotes[i].1;
        let f = k.subrange(0, 3);
        let t = k.subrange(3, 6);
        if k.len() == 6 && f != t {
            match spec_new_rate(f, t, d) {
                Err(_) => {},
                Ok(rv) => {
                    if contains_code(req, t) && t != base_code() {
                        lemma_upsert_preserves(req, acc, t, rv);
                        lemma_build_ok(req, quotes, i + 1, spec_upsert_e(acc, t, rv), entries);
                    } else {
                        lemma_build_ok(req, quotes, i + 1, acc, entries);
                    }
                },
            }
        } else if k.len() == 6 {
            lemma_build_ok(req, quotes, i + 1, acc, entries);
        }
    }
}

proof fn lemma_missing_covered(req: Seq<Seq<char>>, i: int, entries: Seq<(Seq<char>, RateV)>)
    requires
        0 <= i,
        spec_missing(req, i, entries) is None,
    ensures
        forall|j: int|
            i <= j < req.len() ==> req[j] == base_code() || contains_key(entries, #[trigger] req[j]),
    decreases req.len() - i,
{
    if i < req.len() {
        lemma_missing_covered(req, i + 1, entries);
    }
}

proof fn lemma_get_from_index(s: Seq<(Seq<char>, RateV)>, k: Seq<char>, i: int)
    requires
        0 <= i,
        spec_get_from(s, k, i) is Some,
    ensures
        exists|j: int| i <= j < s.len() && (#[trigger] s[j]).0 == k,
    decreases s.len() - i,
{
    if i < s.len() && s[i].0 != k {
        lemma_get_from_index(s, k, i + 1);
    }
}

/// A successful normalization covers the requested codes exactly: every
/// requested code other than the base has an entry, every entry's code was
/// requested and is not the base, and no code has two entries.
pub proof fn lemma_result_exactly_requested(
    req: Seq<Seq<char>>,
    quotes: Seq<(Seq<char>, Dec)>,
    ts: i64,
    crv: CurrencyRatesV,
)
    requires
        spec_normalize(req, quotes, ts) == Ok::<CurrencyRatesV, ErrV>(crv),
    ensures
        forall|j: int|
            0 <= j < req.len() && req[j] != base_code() ==> contains_key(
                crv.quotes,
                #[trigger] req[j],
            ),
        forall|j: int|
            0 <= j < crv.quotes.len() ==> contains_code(req, (#[trigger] crv.quotes[j]).0)
                && crv.quotes[j].0 != base_code(),
        keys_distinct(crv.quotes),
        crv.timestamp == ts,
{
    assert(entries_ok(req, Seq::<(Seq<char>, RateV)>::empty()));
    assert(keys_distinct(Seq::<(Seq<char>, RateV)>::empty()));
    lemma_build_ok(req, quotes, 0, Seq::empty(), crv.quotes);
    lemma_missing_covered(req, 0, crv.quotes);
}

/// The self-pair never yields an exchange rate: in every successful result,
/// every entry relates two distinct currencies.
pub proof fn lemma_no_self_pair(
    req: Seq<Seq<char>>,
    quotes: Seq<(Seq<char>, Dec)>,
    ts: i64,
    crv: CurrencyRatesV,
)
    requires
        spec_normalize(req, quotes, ts) == Ok::<CurrencyRatesV, ErrV>(crv),
    ensures
        forall|j: int|
            0 <= j < crv.quotes.len() ==> (#[trigger] crv.quotes[j]).1.from != crv.quotes[j].1.to,
{
    assert(entries_ok(req, Seq::<(Seq<char>, RateV)>::empty()));
    assert(keys_distinct(Seq::<(Seq<char>, RateV)>::empty()));
    lemma_build_ok(req, quotes, 0, Seq::empty(), crv.quotes);
}

/// A requested code that the registry does not resolve never yields a
/// successful result (other than the base code, which asks for nothing).
pub proof fn lemma_unresolvable_never_succeeds(
    req: Seq<Seq<char>>,
    quotes: Seq<(Seq<char>, Dec)>,
    ts: i64,
    crv: CurrencyRatesV,
)
    requires
        spec_normalize(req, quotes, ts) == Ok::<CurrencyRatesV, ErrV>(crv),
    ensures
        forall|j: int|
            0 <= j < req.len() && req[j] != base_code() ==> iso_exponent(#[trigger] req[j]) is Some,
{
    assert(entries_ok(req, Seq::<(Seq<char>, RateV)>::empty()));
    assert(keys_distinct(Seq::<(Seq<char>, RateV)>::empty()));
    lemma_build_ok(req, quotes, 0, Seq::empty(), crv.quotes);
    lemma_missing_covered(req, 0, crv.quotes);
    assert forall|j: int|
        0 <= j < req.len() && req[j] != base_code() implies iso_exponent(
        #[trigger] req[j],
    ) is Some by {
        assert(contains_key(crv.quotes, req[j]));
        lemma_get_from_index(crv.quotes, req[j], 0);
        let w = choose|w: int| 0 <= w < crv.quotes.len() && (#[trigger] crv.quotes[w]).0 == req[j];
        assert(iso_exponent(crv.quotes[w].0) is Some);
    }
}

/// A body whose `success` flag is false always yields a server-error failure
/// carrying the upstream code and message verbatim, whatever else the body
/// holds.
pub proof fn lemma_server_error_verbatim(s: Seq<char>, req: Seq<Seq<char>>, code: u16, msg: Seq<char>)
    requires
        spec_parse_guard(s) == Some(false),
        spec_parse_error(s) == Some((code, msg)),
    ensures
        spec_rates_from_body(s, req) == Err::<CurrencyRatesV, ErrV>(ErrV::ServerError(code, msg)),
{
}

/// A body in which the `success` flag cannot be read yields a parse failure,
/// never a silent empty result.
pub proof fn lemma_malformed_is_parse_failure(s: Seq<char>, req: Seq<Seq<char>>)
    requires
        spec_parse_guard(s) is None,
    ensures
        spec_rates_from_body(s, req) == Err::<CurrencyRatesV, ErrV>(ErrV::Parse),
{
}

/// Converting through a rate built from multiplier `m` yields the exact
/// product of amount and `m`, rounded half-even to the target currency's
/// precision: the successful outcome's mantissa is exactly the rounded
/// quotient.
pub proof fn lemma_convert_is_rounded_product(er: ExchangeRate, a: Dec, out: Dec)
    requires
        er.spec_convert(a) == Ok::<Dec, ErrV>(out),
        a.scale + er.rate.scale >= er.to_exponent,
    ensures
        out.scale == er.to_exponent,
        out.mant == round_half_even_div(
            (a.mant * er.rate.mant) as int,
            pow10((a.scale + er.rate.scale - er.to_exponent) as nat) as int,
        ),
        out.neg == ((a.neg != er.rate.neg) && out.mant != 0),
{
    crate::decimal::lemma_pow10_pos((a.scale + er.rate.scale - er.to_exponent) as nat);
}

/// Rounding is exact on round numbers: when the divisor divides the product
/// evenly, the rounded quotient is the exact quotient.
pub proof fn lemma_round_exact_when_divisible(x: int, d: int)
    requires
        x >= 0,
        d > 0,
        x % d == 0,
    ensures
        round_half_even_div(x, d) == x / d,
{
}

} // verus!
