//! Client library for a currency-exchange-rate web service.
//!
//! The upstream service returns quotes relative to one fixed base currency
//! (`USD` on the free tier).  This crate holds the verified core of such a
//! client: building the request query, interpreting the two possible response
//! shapes, and normalizing the raw base-relative quotes into directed
//! exchange-rate objects keyed by target currency.  The HTTP round trip
//! itself lives outside the library; callers hand the response body in as
//! text.
#![allow(unused_imports)]

use vstd::prelude::*;

pub mod decimal;
pub mod json;
pub mod laws;
pub mod normalize;
pub mod query;
pub mod registry;
pub mod text;
pub mod types;

pub use types::CurrencyRates;

verus! {

/// The failure taxonomy.  Every internal failure is wrapped into one of these
/// kinds and handed to the caller; none is recovered from locally.
#[derive(Debug, Clone, PartialEq)]
pub enum CurrencyLayerError {
    /// A currency code did not resolve in the registry, or was missing from
    /// the upstream quotes where it was expected.  Carries the offending code.
    InvalidCurrency { symbol: String },
    /// The upstream service reported `success: false`.  Carries the upstream
    /// code and message verbatim.
    ServerError { code: u16, message: String },
    /// Constructing an exchange rate or performing a conversion failed, e.g.
    /// a degenerate same-currency pair or numeric overflow.
    ConversionError,
    /// The response body fit neither known shape, or a numeric field in it
    /// was malformed.
    ParseError,
    /// The network call itself failed.  Constructed outside this library, by
    /// whatever performs the HTTP round trip.
    TransportError { message: String },
}

/// The mathematical shadow of [`CurrencyLayerError`], over sequences.
pub enum ErrV {
    InvalidCurrency(Seq<char>),
    ServerError(u16, Seq<char>),
    Conversion,
    Parse,
    Transport(Seq<char>),
}

/// The model an error value denotes.
pub open spec fn err_view(e: CurrencyLayerError) -> ErrV {
    match e {
        CurrencyLayerError::InvalidCurrency { symbol } => ErrV::InvalidCurrency(symbol@),
        CurrencyLayerError::ServerError { code, message } => ErrV::ServerError(code, message@),
        CurrencyLayerError::ConversionError => ErrV::Conversion,
        CurrencyLayerError::ParseError => ErrV::Parse,
        CurrencyLayerError::TransportError { message } => ErrV::Transport(message@),
    }
}

/// What one whole request yields from its response body: probe the
/// `success` flag; on a reported failure surface the upstream code and
/// message verbatim; on success normalize the quotes against the requested
/// codes.  A body that fits neither shape is a parse failure.
pub open spec fn spec_rates_from_body(s: Seq<char>, req: Seq<Seq<char>>) -> Result<
    types::CurrencyRatesV,
    ErrV,
> {
    match json::spec_parse_guard(s) {
        None => Err(ErrV::Parse),
        Some(g) => {
            if !g {
                match json::spec_parse_error(s) {
                    None => Err(ErrV::Parse),
                    Some((c, m)) => Err(ErrV::ServerError(c, m)),
                }
            } else {
                match json::spec_parse_rates(s) {
                    None => Err(ErrV::Parse),
                    Some((ts, qs)) => normalize::spec_normalize(req, qs, ts),
                }
            }
        },
    }
}

/// Interpret one response body against the requested codes: the verified
/// computation behind a request, once the transport has read the body.
pub fn rates_from_body(requested: &Vec<String>, body: &str) -> (r: Result<
    CurrencyRates,
    CurrencyLayerError,
>)
    ensures
        match r {
            Ok(cr) => spec_rates_from_body(body@, normalize::req_view(requested@)) == Ok::<
                types::CurrencyRatesV,
                ErrV,
            >(types::rates_view(cr)),
            Err(e) => spec_rates_from_body(body@, normalize::req_view(requested@)) == Err::<
                types::CurrencyRatesV,
                ErrV,
            >(err_view(e)),
        },
{
    match json::parse_success_guard(body) {
        None => Err(CurrencyLayerError::ParseError),
        Some(g) => {
            if !g.success {
                match json::parse_error_response(body) {
                    None => Err(CurrencyLayerError::ParseError),
                    Some(er) => Err(
                        CurrencyLayerError::ServerError {
                            code: er.error.code,
                            message: er.error.info,
                        },
                    ),
                }
            } else {
                match json::parse_rates_response(body) {
                    None => Err(CurrencyLayerError::ParseError),
                    Some(resp) => normalize::normalize_rates(requested, &resp),
                }
            }
        },
    }
}

/// Client state for the service: the opaque access key.  The transport that
/// performs the HTTP round trip lives outside the library and asks the
/// client only for the query to send.
pub struct Client {
    /// The caller-supplied opaque credential, passed through as the
    /// `access_key` parameter.
    pub key: String,
}

impl Client {
    /// A client using the provided key for all requests.
    pub fn new(key: &str) -> (c: Client)
        ensures
            c.key@ == key@,
    {
        Client { key: String::from_str(key) }
    }

    /// The query for a live-rates request: no date parameter.
    pub fn live_query(&self, currencies: &Vec<String>) -> (q: Vec<(String, String)>)
        ensures
            query::pairs_view(q@) == query::spec_query(
                self.key@,
                normalize::req_view(currencies@),
                None,
            ),
    {
        query::build_query(&self.key, currencies, None)
    }

    /// The query for a historical-rates request: the same parameters plus
    /// `date`, with month and day zero-padded.  `date` is year, month, day.
    pub fn historical_query(&self, currencies: &Vec<String>, date: (u16, u16, u16)) -> (q: Vec<
        (String, String),
    >)
        ensures
            query::pairs_view(q@) == query::spec_query(
                self.key@,
                normalize::req_view(currencies@),
                Some(date),
            ),
    {
        query::build_query(&self.key, currencies, Some(date))
    }
}

} // verus!
