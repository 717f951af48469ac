use currency_layer::decimal::Dec;
use currency_layer::types::ExchangeRate;
use currency_layer::{rates_from_body, Client, CurrencyLayerError};

fn codes(list: &[&str]) -> Vec<String> {
    list.iter().map(|c| c.to_string()).collect()
}

fn dec(mant: u128, scale: u32) -> Dec {
    Dec { neg: false, mant, scale }
}

const LIVE_BODY: &str = "{\"success\": true, \"timestamp\": 1613441526, \"quotes\": {\"USDGBP\": 0.7174, \"USDCAD\": 1.2716, \"USDUSD\": 1.0}}";

#[test]
fn live_rates_scenario() {
    let requested = codes(&["GBP", "USD", "CAD"]);
    let result = rates_from_body(&requested, LIVE_BODY).unwrap();
    assert_eq!(result.timestamp, 1613441526);
    assert_eq!(result.quotes.len(), 2);
    let gbp = result.get("GBP").unwrap();
    assert_eq!(gbp.from, "USD");
    assert_eq!(gbp.to, "GBP");
    assert_eq!(gbp.rate, dec(7174, 4));
    let cad = result.get("CAD").unwrap();
    assert_eq!(cad.rate, dec(12716, 4));
    assert!(result.get("USD").is_none());
}

#[test]
fn live_rates_conversion() {
    let requested = codes(&["GBP", "USD", "CAD"]);
    let result = rates_from_body(&requested, LIVE_BODY).unwrap();
    let gbp = result.get("GBP").unwrap();
    let converted = gbp.convert(&dec(100, 0)).unwrap();
    assert_eq!(converted, dec(7174, 2));
}

#[test]
fn conversion_exact_for_round_numbers() {
    let rate = ExchangeRate::new("USD".to_string(), "GBP".to_string(), dec(647, 3)).unwrap();
    assert_eq!(rate.to_exponent, 2);
    let converted = rate.convert(&dec(100, 0)).unwrap();
    assert_eq!(converted, dec(6470, 2));
}

#[test]
fn conversion_rounds_half_even() {
    let down = ExchangeRate::new("USD".to_string(), "GBP".to_string(), dec(5, 3)).unwrap();
    assert_eq!(down.convert(&dec(1, 0)).unwrap(), dec(0, 2));
    let up = ExchangeRate::new("USD".to_string(), "GBP".to_string(), dec(15, 3)).unwrap();
    assert_eq!(up.convert(&dec(1, 0)).unwrap(), dec(2, 2));
}

#[test]
fn conversion_of_negative_amount() {
    let rate = ExchangeRate::new("USD".to_string(), "GBP".to_string(), dec(7174, 4)).unwrap();
    let amount = Dec { neg: true, mant: 100, scale: 0 };
    let converted = rate.convert(&amount).unwrap();
    assert_eq!(converted, Dec { neg: true, mant: 7174, scale: 2 });
}

#[test]
fn degenerate_pair_is_conversion_error() {
    let r = ExchangeRate::new("USD".to_string(), "USD".to_string(), dec(1, 0));
    assert_eq!(r.unwrap_err(), CurrencyLayerError::ConversionError);
}

#[test]
fn unknown_code_in_rate_construction() {
    let r = ExchangeRate::new("USD".to_string(), "ZZZ".to_string(), dec(1, 0));
    assert_eq!(
        r.unwrap_err(),
        CurrencyLayerError::InvalidCurrency { symbol: "ZZZ".to_string() }
    );
}

#[test]
fn server_error_carries_code_and_message() {
    let body = "{\"success\": false, \"error\": {\"code\": 104, \"info\": \"maximum monthly request volume reached\"}}";
    let requested = codes(&["GBP"]);
    let err = rates_from_body(&requested, body).unwrap_err();
    assert_eq!(
        err,
        CurrencyLayerError::ServerError {
            code: 104,
            message: "maximum monthly request volume reached".to_string(),
        }
    );
}

#[test]
fn server_error_wins_over_quotes_content() {
    let body = "{\"success\": false, \"quotes\": {\"USDGBP\": 0.7}, \"error\": {\"code\": 105, \"info\": \"denied\"}}";
    let requested = codes(&["GBP"]);
    let err = rates_from_body(&requested, body).unwrap_err();
    assert_eq!(
        err,
        CurrencyLayerError::ServerError { code: 105, message: "denied".to_string() }
    );
}

#[test]
fn missing_success_field_is_parse_failure() {
    let body = "{\"timestamp\": 1613441526, \"quotes\": {\"USDGBP\": 0.7174}}";
    let requested = codes(&["GBP"]);
    assert_eq!(
        rates_from_body(&requested, body).unwrap_err(),
        CurrencyLayerError::ParseError
    );
}

#[test]
fn garbage_body_is_parse_failure() {
    let requested = codes(&["GBP"]);
    assert_eq!(
        rates_from_body(&requested, "not a body").unwrap_err(),
        CurrencyLayerError::ParseError
    );
    assert_eq!(
        rates_from_body(&requested, "{}").unwrap_err(),
        CurrencyLayerError::ParseError
    );
}

#[test]
fn fractional_timestamp_is_parse_failure() {
    let body = "{\"success\": true, \"timestamp\": 16.5, \"quotes\": {\"USDGBP\": 0.7}}";
    let requested = codes(&["GBP"]);
    assert_eq!(
        rates_from_body(&requested, body).unwrap_err(),
        CurrencyLayerError::ParseError
    );
}

#[test]
fn exponent_notation_is_parse_failure() {
    let body = "{\"success\": true, \"timestamp\": 1, \"quotes\": {\"USDGBP\": 1e3}}";
    let requested = codes(&["GBP"]);
    assert_eq!(
        rates_from_body(&requested, body).unwrap_err(),
        CurrencyLayerError::ParseError
    );
}

#[test]
fn unregistered_quoted_code_is_invalid_currency() {
    let body = "{\"success\": true, \"timestamp\": 1, \"quotes\": {\"USDGBP\": 0.7, \"USDZZZ\": 5}}";
    let requested = codes(&["GBP", "ZZZ"]);
    assert_eq!(
        rates_from_body(&requested, body).unwrap_err(),
        CurrencyLayerError::InvalidCurrency { symbol: "ZZZ".to_string() }
    );
}

#[test]
fn requested_code_missing_from_quotes_is_invalid_currency() {
    let body = "{\"success\": true, \"timestamp\": 1, \"quotes\": {\"USDGBP\": 0.7174}}";
    let requested = codes(&["GBP", "CAD"]);
    assert_eq!(
        rates_from_body(&requested, body).unwrap_err(),
        CurrencyLayerError::InvalidCurrency { symbol: "CAD".to_string() }
    );
}

#[test]
fn unrequested_quotes_never_reach_the_result() {
    let body = "{\"success\": true, \"timestamp\": 1, \"quotes\": {\"USDGBP\": 0.7174, \"USDCAD\": 1.2716}}";
    let requested = codes(&["GBP"]);
    let result = rates_from_body(&requested, body).unwrap();
    assert_eq!(result.quotes.len(), 1);
    assert!(result.get("CAD").is_none());
    assert!(result.get("GBP").is_some());
}

#[test]
fn unknown_members_and_whitespace_are_tolerated() {
    let body = " {\n \"privacy\": null, \"terms\": [1, {\"a\": \"b\"}], \"success\": true,\n \"source\": \"USD\", \"timestamp\": 7, \"quotes\": { \"USDCAD\" : 1.5 } } ";
    let requested = codes(&["CAD"]);
    let result = rates_from_body(&requested, body).unwrap();
    assert_eq!(result.timestamp, 7);
    assert_eq!(result.get("CAD").unwrap().rate, dec(15, 1));
}

#[test]
fn duplicate_quote_key_takes_the_last_value() {
    let body = "{\"success\": true, \"timestamp\": 1, \"quotes\": {\"USDGBP\": 0.7, \"USDGBP\": 0.8}}";
    let requested = codes(&["GBP"]);
    let result = rates_from_body(&requested, body).unwrap();
    assert_eq!(result.get("GBP").unwrap().rate, dec(8, 1));
}

#[test]
fn escaped_text_in_error_message() {
    let body = "{\"success\": false, \"error\": {\"code\": 1, \"info\": \"a \\\"quoted\\\"\\nline\"}}";
    let requested = codes(&[]);
    let err = rates_from_body(&requested, body).unwrap_err();
    assert_eq!(
        err,
        CurrencyLayerError::ServerError { code: 1, message: "a \"quoted\"\nline".to_string() }
    );
}

#[test]
fn historical_query_zero_pads_the_date() {
    let client = Client::new("KEY");
    let q = client.historical_query(&codes(&["GBP", "USD", "CAD"]), (2015, 2, 23));
    assert_eq!(q.len(), 4);
    assert_eq!(q[0], ("currencies".to_string(), "GBP,USD,CAD".to_string()));
    assert_eq!(q[1], ("format".to_string(), "1".to_string()));
    assert_eq!(q[2], ("access_key".to_string(), "KEY".to_string()));
    assert_eq!(q[3], ("date".to_string(), "2015-02-23".to_string()));
}

#[test]
fn live_query_has_no_date() {
    let client = Client::new("KEY2");
    let q = client.live_query(&codes(&["EUR"]));
    assert_eq!(q.len(), 3);
    assert_eq!(q[0], ("currencies".to_string(), "EUR".to_string()));
    assert_eq!(q[2].1, "KEY2".to_string());
}

#[test]
fn empty_request_on_success_body_is_ok_and_empty() {
    let body = "{\"success\": true, \"timestamp\": 3, \"quotes\": {}}";
    let requested = codes(&[]);
    let result = rates_from_body(&requested, body).unwrap();
    assert_eq!(result.timestamp, 3);
    assert_eq!(result.quotes.len(), 0);
}
