//! The response model and the values handed to the caller.
//!
//! The two JSON shapes a response can take are mirrored by plain structs:
//! [`SuccessGuard`] probes the `success` flag, [`ErrorResponse`] carries an
//! upstream-reported failure, and [`CurrencyRatesResponse`] carries the
//! timestamp and the raw base-relative quotes.  [`CurrencyRates`] is the
//! normalized value the caller receives: the upstream timestamp plus one
//! directed [`ExchangeRate`] per requested target currency.

use vstd::prelude::*;

use crate::decimal::{dec_wf, spec_mul_round, Dec};
use crate::registry::{find_exponent, iso_exponent};
use crate::{err_view, CurrencyLayerError, ErrV};

verus! {

/// Minimal probe for the boolean `success` flag of a response body.
#[derive(Debug, Clone, PartialEq, Eq, Structural)]
pub struct SuccessGuard {
    pub success: bool,
}

/// An upstream-reported failure: a numeric code and a human-readable message.
#[derive(Debug, Clone, PartialEq)]
pub struct ErrorBody {
    pub code: u16,
    pub info: String,
}

/// The failure shape of a response: `{"success": false, "error": {...}}`.
#[derive(Debug, Clone, PartialEq)]
pub struct ErrorResponse {
    pub error: ErrorBody,
}

/// The success shape of a response: the upstream request time (epoch
/// seconds, UTC) and the raw quotes, keyed by a six-letter pair code.
#[derive(Debug, Clone, PartialEq)]
pub struct CurrencyRatesResponse {
    /// Time of the request, as reported upstream.
    pub timestamp: i64,
    /// Raw quotes: pair key (for instance `USDGBP`) to decimal multiplier.
    pub quotes: Vec<(String, Dec)>,
}

/// A directed exchange rate: one unit of `from` is `rate` units of `to`.
#[derive(Debug, Clone, PartialEq)]
pub struct ExchangeRate {
    pub from: String,
    pub to: String,
    /// The multiplier applied to an amount in the `from` currency.
    pub rate: Dec,
    /// The `to` currency's decimal precision, as the registry states it.
    pub to_exponent: u32,
}

/// The value returned to the caller: the upstream-reported request time and
/// one exchange rate per target currency code.
#[derive(Debug, Clone, PartialEq)]
pub struct CurrencyRates {
    /// Time of the request, as reported upstream; never locally generated.
    pub timestamp: i64,
    /// Exchange rates keyed by target currency code; keys are distinct.
    pub quotes: Vec<(String, ExchangeRate)>,
}

/// The mathematical shadow of an [`ExchangeRate`].
pub struct RateV {
    pub from: Seq<char>,
    pub to: Seq<char>,
    pub rate: Dec,
    pub to_exponent: u32,
}

/// The model an exchange rate denotes.
pub open spec fn rate_view(r: ExchangeRate) -> RateV {
    RateV { from: r.from@, to: r.to@, rate: r.rate, to_exponent: r.to_exponent }
}

/// Validity of an exchange rate: both codes resolve, the stored precision is
/// the registry's, the pair is not degenerate, and the multiplier is a
/// well-formed decimal.
pub open spec fn rate_wf(r: RateV) -> bool {
    &&& iso_exponent(r.from) is Some
    &&& iso_exponent(r.to) == Some(r.to_exponent)
    &&& r.from != r.to
    &&& dec_wf(r.rate)
}

/// The mathematical shadow of a [`CurrencyRates`].
pub struct CurrencyRatesV {
    pub timestamp: i64,
    pub quotes: Seq<(Seq<char>, RateV)>,
}

/// The model of the quote list of a [`CurrencyRates`].
pub open spec fn quotes_view(q: Seq<(String, ExchangeRate)>) -> Seq<(Seq<char>, RateV)> {
    q.map_values(|p: (String, ExchangeRate)| (p.0@, rate_view(p.1)))
}

/// The model a [`CurrencyRates`] denotes.
pub open spec fn rates_view(r: CurrencyRates) -> CurrencyRatesV {
    CurrencyRatesV { timestamp: r.timestamp, quotes: quotes_view(r.quotes@) }
}

/// First match for key `k` in `s`, searching from position `i`.
pub open spec fn spec_get_from(s: Seq<(Seq<char>, RateV)>, k: Seq<char>, i: int) -> Option<RateV>
    decreases s.len() - i,
{
    if i < 0 || i >= s.len() {
        None
    } else if s[i].0 == k {
        Some(s[i].1)
    } else {
        spec_get_from(s, k, i + 1)
    }
}

/// Whether key `k` occurs in `s`.
pub open spec fn contains_key(s: Seq<(Seq<char>, RateV)>, k: Seq<char>) -> bool {
    spec_get_from(s, k, 0) is Some
}

/// What constructing an exchange rate yields: resolve both codes against the
/// registry (failing with the offending code), then reject a degenerate
/// same-currency pair.
pub open spec fn spec_new_rate(from: Seq<char>, to: Seq<char>, rate: Dec) -> Result<RateV, ErrV> {
    match iso_exponent(from) {
        None => Err(ErrV::InvalidCurrency(from)),
        Some(_) => match iso_exponent(to) {
            None => Err(ErrV::InvalidCurrency(to)),
            Some(e) => if from == to {
                Err(ErrV::Conversion)
            } else {
                Ok(RateV { from, to, rate, to_exponent: e })
            },
        },
    }
}

impl ExchangeRate {
    /// Build a directed exchange rate from two currency codes and a
    /// multiplier, resolving both codes against the currency registry.
    pub fn new(from: String, to: String, rate: Dec) -> (r: Result<ExchangeRate, CurrencyLayerError>)
        ensures
            match r {
                Ok(er) => spec_new_rate(from@, to@, rate) == Ok::<RateV, ErrV>(rate_view(er))
                    && (dec_wf(rate) ==> rate_wf(rate_view(er))),
                Err(e) => spec_new_rate(from@, to@, rate) == Err::<RateV, ErrV>(err_view(e)),
            },
    {
        if find_exponent(from.as_str()).is_none() {
            return Err(CurrencyLayerError::InvalidCurrency { symbol: from });
        }
        match find_exponent(to.as_str()) {
            None => Err(CurrencyLayerError::InvalidCurrency { symbol: to }),
            Some(e) => {
                if from == to {
                    Err(CurrencyLayerError::ConversionError)
                } else {
                    Ok(ExchangeRate { from, to, rate, to_exponent: e })
                }
            },
        }
    }

    /// What converting yields: the exact product of the amount and the
    /// multiplier, rounded half-even to the target currency's precision;
    /// numeric overflow is a conversion failure.
    pub open spec fn spec_convert(self, amount: Dec) -> Result<Dec, ErrV> {
        match spec_mul_round(amount, self.rate, self.to_exponent) {
            Some(d) => Ok(d),
            None => Err(ErrV::Conversion),
        }
    }

    /// Convert an amount in the `from` currency into the `to` currency:
    /// multiply by the rate, then round to the target's precision.
    pub fn convert(&self, amount: &Dec) -> (r: Result<Dec, CurrencyLayerError>)
        requires
            dec_wf(*amount),
            dec_wf(self.rate),
        ensures
            match r {
                Ok(d) => self.spec_convert(*amount) == Ok::<Dec, ErrV>(d) && dec_wf(d),
                Err(e) => self.spec_convert(*amount) == Err::<Dec, ErrV>(err_view(e)),
            },
    {
        match crate::decimal::dec_mul_round(amount, &self.rate, self.to_exponent) {
            Some(d) => Ok(d),
            None => Err(CurrencyLayerError::ConversionError),
        }
    }
}

impl CurrencyRates {
    /// Look up the exchange rate for a target currency code.
    pub fn get(&self, code: &str) -> (r: Option<&ExchangeRate>)
        ensures
            match r {
                Some(er) => spec_get_from(quotes_view(self.quotes@), code@, 0) == Some(
                    rate_view(*er),
                ),
                None => spec_get_from(quotes_view(self.quotes@), code@, 0) is None,
            },
    {
        let key = String::from_str(code);
        let mut i: usize = 0;
        while i < self.quotes.len()
            invariant
                i <= self.quotes@.len(),
                key@ == code@,
                spec_get_from(quotes_view(self.quotes@), code@, 0) == spec_get_from(
                    quotes_view(self.quotes@),
                    code@,
                    i as int,
                ),
            decreases self.quotes@.len() - i,
        {
            if self.quotes[i].0 == key {
                return Some(&self.quotes[i].1);
            }
            i = i + 1;
        }
        None
    }
}

} // verus!
