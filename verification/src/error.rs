//! The error type shared by the strategies.

use crate::text::push_text;
use vstd::prelude::*;
use vstd::string::StringExecFns;

verus! {

/// What can go wrong, typed at the boundary where it arises.
#[derive(Debug)]
pub enum Error {
    Http(String),
    WebSocket(String),
    Json(String),
    Auth(String),
    Config(String),
    Noaa(String),
    GoogleWeather(String),
    KalshiApi { status: u16, message: String },
    RateLimited { retry_after_ms: u64 },
    RiskViolation(String),
    MarketNotFound(String),
    StaleData(String),
    Io(String),
    Other(String),
}

/// The text of an error: a fixed prefix for its kind, then its detail.
pub open spec fn error_text(e: Error) -> Seq<char> {
    match e {
        Error::Http(m) => "HTTP request failed: "@ + m@,
        Error::WebSocket(m) => "WebSocket error: "@ + m@,
        Error::Json(m) => "JSON parse error: "@ + m@,
        Error::Auth(m) => "Auth error: "@ + m@,
        Error::Config(m) => "Config error: "@ + m@,
        Error::Noaa(m) => "NOAA API error: "@ + m@,
        Error::GoogleWeather(m) => "Google Weather API error: "@ + m@,
        Error::KalshiApi { status, message } => "Kalshi API error (status="@
            + crate::text::decimal(status as int) + "): "@ + message@,
        Error::RateLimited { retry_after_ms } => "Rate limited — retry after "@
            + crate::text::decimal(retry_after_ms as int) + "ms"@,
        Error::RiskViolation(m) => "Risk check failed: "@ + m@,
        Error::MarketNotFound(m) => "Market not found: "@ + m@,
        Error::StaleData(m) => "Stale data: "@ + m@,
        Error::Io(m) => "IO error: "@ + m@,
        Error::Other(m) => m@,
    }
}

fn prefixed(prefix: &str, detail: &String) -> (s: String)
    ensures
        s@ == prefix@ + detail@,
{
    let mut s = String::from_str(prefix);
    push_text(&mut s, detail.as_str());
    s
}

impl Error {
    /// The text of the error, as it is shown to an operator.
    pub fn to_string(&self) -> (s: String)
        ensures
            s@ == error_text(*self),
    {
        match self {
            Error::Http(m) => prefixed("HTTP request failed: ", m),
            Error::WebSocket(m) => prefixed("WebSocket error: ", m),
            Error::Json(m) => prefixed("JSON parse error: ", m),
            Error::Auth(m) => prefixed("Auth error: ", m),
            Error::Config(m) => prefixed("Config error: ", m),
            Error::Noaa(m) => prefixed("NOAA API error: ", m),
            Error::GoogleWeather(m) => prefixed("Google Weather API error: ", m),
            Error::KalshiApi { status, message } => {
                let mut s = String::from_str("Kalshi API error (status=");
                crate::text::push_decimal(&mut s, *status as i128);
                push_text(&mut s, "): ");
                push_text(&mut s, message.as_str());
                s
            },
            Error::RateLimited { retry_after_ms } => {
                let mut s = String::from_str("Rate limited — retry after ");
                crate::text::push_decimal(&mut s, *retry_after_ms as i128);
                push_text(&mut s, "ms");
                s
            },
            Error::RiskViolation(m) => prefixed("Risk check failed: ", m),
            Error::MarketNotFound(m) => prefixed("Market not found: ", m),
            Error::StaleData(m) => prefixed("Stale data: ", m),
            Error::Io(m) => prefixed("IO error: ", m),
            Error::Other(m) => m.clone(),
        }
    }
}

} // verus!
