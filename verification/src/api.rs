//! Decisions at the boundary with the exchange's REST interface: where
//! to connect, how an answer is read, how an order is written, and how an
//! error is reported.

use crate::error::Error;
use crate::ids::fresh_order_id;
use crate::text::{
    chars_of, contains_chars, contains_text, normalize_url, normalized_url, push_text, string_of,
    texts,
};
use crate::types::{
    Action, CreateOrderRequest, IntentModel, OrderIntent, OrderType, RequestModel, Side,
};
use vstd::prelude::*;
use vstd::string::StringExecFns;

verus! {

/// Most characters of an answer that are quoted in an error.
pub const MAX_SUMMARY_CHARS: usize = 800;

/// A base address as it is used: trimmed, without slashes at its end.
pub fn normalize_base_url(raw: &str) -> (r: String)
    ensures
        r@ == normalized_url(raw@),
{
    normalize_url(raw)
}

/// The base address of the exchange: the override if it is not blank once
/// normalized, else the address of the chosen environment.
pub open spec fn rest_address(override_url: Option<Seq<char>>, use_demo: bool) -> Seq<char> {
    if override_url is Some && normalized_url(override_url->0).len() > 0 {
        normalized_url(override_url->0)
    } else if use_demo {
        "https://demo-api.kalshi.co"@
    } else {
        "https://api.elections.kalshi.com"@
    }
}

/// The base address of the exchange.
pub fn resolve_rest_base_url(override_url: Option<&str>, use_demo: bool) -> (url: String)
    ensures
        url@ == rest_address(
            match override_url {
                Some(v) => Some(v@),
                None => None,
            },
            use_demo,
        ),
{
    match override_url {
        Some(raw) => {
            let normalized = normalize_base_url(raw);
            if !normalized.as_str().is_empty() {
                return normalized;
            }
        },
        None => {},
    }
    if use_demo {
        String::from_str("https://demo-api.kalshi.co")
    } else {
        String::from_str("https://api.elections.kalshi.com")
    }
}

/// A character of an answer as it is quoted: line breaks become spaces.
pub open spec fn on_one_line(c: char) -> char {
    if c == '\n' || c == '\r' {
        ' '
    } else {
        c
    }
}

/// An answer as it is quoted in an error: on one line, and cut after 800
/// characters with an ellipsis.
pub open spec fn summary_of(raw: Seq<char>) -> Seq<char> {
    let line = Seq::new(raw.len(), |i: int| on_one_line(raw[i]));
    if line.len() > 800 {
        line.take(800).push('…')
    } else {
        line
    }
}

/// An answer as it is quoted in an error.
pub fn summarize_response_body(raw: &str) -> (summary: String)
    ensures
        summary@ == summary_of(raw@),
{
    let chars = chars_of(raw);
    let keep: usize = if chars.len() > MAX_SUMMARY_CHARS {
        MAX_SUMMARY_CHARS
    } else {
        chars.len()
    };
    let ghost line = Seq::new(raw@.len(), |i: int| on_one_line(raw@[i]));
    let mut out: Vec<char> = Vec::new();
    let mut i: usize = 0;
    while i < keep
        invariant
            i <= keep <= chars.len(),
            chars@ == raw@,
            line == Seq::new(raw@.len(), |i: int| on_one_line(raw@[i])),
            out@ == line.take(i as int),
        decreases keep - i,
    {
        let c = chars[i];
        let shown = if c == '\n' || c == '\r' {
            ' '
        } else {
            c
        };
        out.push(shown);
        assert(line.take(i + 1) =~= line.take(i as int).push(shown));
        i += 1;
    }
    if chars.len() > MAX_SUMMARY_CHARS {
        out.push('…');
    } else {
        assert(line.take(keep as int) =~= line);
    }
    string_of(&out)
}

/// An error message with its causes. A cause is added, behind a colon,
/// unless it is empty or already stands in the message.
pub open spec fn error_chain(message: Seq<char>, causes: Seq<Seq<char>>) -> Seq<char>
    decreases causes.len(),
{
    if causes.len() == 0 {
        message
    } else {
        let so_far = error_chain(message, causes.drop_last());
        if causes.last().len() > 0 && !contains_text(so_far, causes.last()) {
            so_far + ": "@ + causes.last()
        } else {
            so_far
        }
    }
}

/// An error message with its causes.
pub fn format_error_chain(message: &str, causes: &Vec<String>) -> (chain: String)
    ensures
        chain@ == error_chain(message@, texts(causes@)),
{
    let mut chain = String::from_str(message);
    let mut i: usize = 0;
    assert(texts(causes@).take(0) =~= Seq::<Seq<char>>::empty());
    while i < causes.len()
        invariant
            i <= causes.len(),
            chain@ == error_chain(message@, texts(causes@).take(i as int)),
        decreases causes.len() - i,
    {
        proof {
            let next = texts(causes@).take(i + 1);
            assert(next.drop_last() =~= texts(causes@).take(i as int));
            assert(next.last() == causes@[i as int]@);
        }
        let cause = &causes[i];
        if !cause.as_str().is_empty() && !contains_chars(
            &chars_of(chain.as_str()),
            &chars_of(cause.as_str()),
        ) {
            push_text(&mut chain, ": ");
            push_text(&mut chain, cause.as_str());
        }
        i += 1;
    }
    assert(texts(causes@).take(causes@.len() as int) =~= texts(causes@));
    chain
}

/// The limit order that places an intent, under identifier `id`: the price
/// goes on the side that is traded.
pub open spec fn order_request_of(intent: IntentModel, id: Seq<char>) -> RequestModel {
    RequestModel {
        ticker: intent.ticker,
        side: intent.side,
        action: intent.action,
        client_order_id: id,
        count: intent.count,
        order_type: OrderType::Limit,
        yes_price: if intent.side == Side::Yes {
            Some(intent.price_cents)
        } else {
            None
        },
        no_price: if intent.side == Side::No {
            Some(intent.price_cents)
        } else {
            None
        },
        expiration_ts: None,
        time_in_force: None,
    }
}

/// The limit order that places `intent`, under a fresh identifier.
pub fn order_request(intent: &OrderIntent) -> (request: CreateOrderRequest)
    ensures
        request@ == order_request_of(intent@, request.client_order_id@),
{
    let (yes_price, no_price): (Option<i64>, Option<i64>) = match intent.side {
        Side::Yes => (Some(intent.price_cents), None),
        Side::No => (None, Some(intent.price_cents)),
    };
    CreateOrderRequest {
        ticker: intent.ticker.clone(),
        side: intent.side,
        action: intent.action,
        client_order_id: fresh_order_id(),
        count: intent.count,
        order_type: OrderType::Limit,
        yes_price,
        no_price,
        expiration_ts: None,
        time_in_force: None,
    }
}

/// How the status of an answer to an order is read: 429 is a rate limit
/// with a second to wait; anything but 200 and 201 is an error of the
/// exchange that carries the status and the body.
pub open spec fn status_error(status: u16, body: Seq<char>) -> Option<(int, u16, Seq<char>)> {
    if status == 429 {
        Some((0, status, Seq::empty()))
    } else if status != 200 && status != 201 {
        Some((1, status, body))
    } else {
        None
    }
}

/// Reads the status of an answer to an order.
pub fn check_order_status(status: u16, body: &str) -> (r: Result<(), Error>)
    ensures
        match r {
            Ok(()) => status_error(status, body@) is None,
            Err(Error::RateLimited { retry_after_ms }) => status == 429 && retry_after_ms == 1000,
            Err(Error::KalshiApi { status: s, message }) => status != 429 && status != 200
                && status != 201 && s == status && message@ == body@,
            Err(_) => false,
        },
{
    if status == 429 {
        return Err(Error::RateLimited { retry_after_ms: 1000 });
    }
    if status != 200 && status != 201 {
        return Err(Error::KalshiApi { status, message: body.to_owned() });
    }
    Ok(())
}

/// The cursor of the next page, if the listing goes on: a listing ends
/// with no cursor or an empty one.
pub fn next_page(cursor: Option<String>) -> (next: Option<String>)
    ensures
        match cursor {
            Some(c) => if c@.len() > 0 {
                next matches Some(n) && n@ == c@
            } else {
                next is None
            },
            None => next is None,
        },
{
    match cursor {
        Some(c) => {
            if c.as_str().is_empty() {
                None
            } else {
                Some(c)
            }
        },
        None => None,
    }
}

} // verus!
