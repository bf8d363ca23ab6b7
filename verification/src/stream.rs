//! Decisions of the streaming task: where to connect, when to reconnect,
//! what to subscribe to, and what a ticker message does to the quote
//! book.

use crate::arb::quotes::{PriceEntry, QuoteBook};
use crate::error::Error;
use crate::text::{
    ascii_lower, ascii_lower_chars, before_char, chars_of, decimal, normalize_url, normalized_url,
    prefix_before, push_decimal, push_text, same_chars, same_text, texts, trim_chars, trimmed,
};
use crate::types::{WsSubscribeCmd, WsSubscribeParams, WsTickerMessage};
use vstd::prelude::*;
use vstd::string::StringExecFns;

verus! {

/// Shortest pause before a reconnect, in seconds.
pub const MIN_BACKOFF_SECS: u64 = 1;

/// Longest pause before a reconnect, in seconds.
pub const MAX_BACKOFF_SECS: u64 = 60;

/// A stream address as it is used: trimmed, without slashes at its end.
pub fn normalize_ws_url(raw: &str) -> (r: String)
    ensures
        r@ == normalized_url(raw@),
{
    normalize_url(raw)
}

/// The address of the stream: the override if it is not blank once
/// normalized, else the address of the chosen environment.
pub open spec fn stream_address(override_url: Option<Seq<char>>, use_demo: bool) -> Seq<char> {
    if override_url is Some && normalized_url(override_url->0).len() > 0 {
        normalized_url(override_url->0)
    } else if use_demo {
        "wss://demo-api.kalshi.co/trade-api/ws/v2"@
    } else {
        "wss://api.elections.kalshi.com/trade-api/ws/v2"@
    }
}

/// The address of the stream.
pub fn resolve_ws_url(override_url: Option<&str>, use_demo: bool) -> (url: String)
    ensures
        url@ == stream_address(
            match override_url {
                Some(v) => Some(v@),
                None => None,
            },
            use_demo,
        ),
{
    match override_url {
        Some(raw) => {
            let normalized = normalize_ws_url(raw);
            if !normalized.as_str().is_empty() {
                return normalized;
            }
        },
        None => {},
    }
    if use_demo {
        String::from_str("wss://demo-api.kalshi.co/trade-api/ws/v2")
    } else {
        String::from_str("wss://api.elections.kalshi.com/trade-api/ws/v2")
    }
}

/// A switch read from the environment is on when it is set to
/// something other than nothing, `0`, `false` or `no`.
pub open spec fn truthy(value: Option<Seq<char>>) -> bool {
    match value {
        Some(raw) => {
            let v = ascii_lower(trimmed(raw));
            v.len() > 0 && v != "0"@ && v != "false"@ && v != "no"@
        },
        None => false,
    }
}

/// Whether a switch read from the environment is on.
pub fn env_truthy(value: Option<&str>) -> (on: bool)
    ensures
        on == truthy(
            match value {
                Some(v) => Some(v@),
                None => None,
            },
        ),
{
    match value {
        Some(raw) => {
            let v = ascii_lower_chars(&trim_chars(&chars_of(raw)));
            v.len() > 0 && !same_chars(&v, &chars_of("0")) && !same_chars(&v, &chars_of("false"))
                && !same_chars(&v, &chars_of("no"))
        },
        None => false,
    }
}

/// The pause after a pause of `current` seconds: twice as long, and at
/// most a minute.
pub open spec fn doubled_backoff(current: u64) -> u64 {
    if current >= 30 {
        60
    } else {
        (2 * current) as u64
    }
}

/// The pauses between connection attempts.
#[derive(Clone, Copy, Debug, PartialEq, Eq, Structural)]
pub struct Reconnect {
    pub backoff_secs: u64,
}

impl Reconnect {
    /// The schedule before the first attempt: a pause of one second.
    pub fn new() -> (r: Reconnect)
        ensures
            r.backoff_secs == 1,
    {
        Reconnect { backoff_secs: MIN_BACKOFF_SECS }
    }

    /// The pause to take after a connection has ended, in seconds. A
    /// connection that closed cleanly starts the schedule afresh. After
    /// the pause the next one is twice as long, up to a minute.
    pub fn after_connection(&mut self, closed_cleanly: bool) -> (pause_secs: u64)
        ensures
            pause_secs == (if closed_cleanly {
                1
            } else {
                old(self).backoff_secs
            }),
            final(self).backoff_secs == doubled_backoff(pause_secs),
    {
        let pause: u64 = if closed_cleanly {
            MIN_BACKOFF_SECS
        } else {
            self.backoff_secs
        };
        self.backoff_secs = if pause >= 30 {
            MAX_BACKOFF_SECS
        } else {
            2 * pause
        };
        pause
    }
}

/// From a pause of at most a minute the schedule never leaves the range
/// from one second to a minute, whatever happens to the connections.
pub proof fn lemma_backoff_bounded(current: u64, closed_cleanly: bool)
    requires
        1 <= current <= 60,
    ensures
        1 <= doubled_backoff(
            if closed_cleanly {
                1
            } else {
                current
            },
        ) <= 60,
{
}

/// The path that a signature covers: the path without its query, and `/`
/// for an empty path.
pub open spec fn signed_path(path: Seq<char>) -> Seq<char> {
    before_char(path, '?')
}

/// The message that a request signature covers: the timestamp, the
/// method and the path without its query, one after the other.
pub open spec fn signing_text(timestamp: Seq<char>, method: Seq<char>, path: Seq<char>) -> Seq<char> {
    timestamp + method + signed_path(path)
}

/// The message that a request signature covers.
pub fn signing_message(timestamp: &str, method: &str, path: &str) -> (message: String)
    ensures
        message@ == signing_text(timestamp@, method@, path@),
{
    let clean = prefix_before(path, '?');
    let mut message = String::from_str(timestamp);
    push_text(&mut message, method);
    push_text(&mut message, clean.as_str());
    message
}

/// The path of a stream address as it is signed: `/` when the address
/// has no path.
pub fn path_to_sign(path: &str) -> (r: String)
    ensures
        r@ == (if path@.len() == 0 {
            "/"@
        } else {
            path@
        }),
{
    if path.is_empty() {
        String::from_str("/")
    } else {
        path.to_owned()
    }
}

/// What the stream is subscribed to.
#[derive(Debug)]
pub struct Subscriptions {
    subscribed: Vec<String>,
    next_id: u64,
}

impl Subscriptions {
    /// The tickers subscribed to.
    pub closed spec fn tickers(&self) -> Seq<Seq<char>> {
        texts(self.subscribed@)
    }

    /// The identifier of the next subscribe command.
    pub closed spec fn next_id(&self) -> u64 {
        self.next_id
    }

    /// The state of a fresh connection: nothing subscribed, first
    /// identifier 1.
    pub fn new() -> (s: Subscriptions)
        ensures
            s.tickers() == Seq::<Seq<char>>::empty(),
            s.next_id() == 1,
    {
        let s = Subscriptions { subscribed: Vec::new(), next_id: 1 };
        assert(texts(s.subscribed@) =~= Seq::<Seq<char>>::empty());
        s
    }

    /// The subscribe command to send for the tracked tickers `latest`, if
    /// one is due: none while nothing is tracked, none while the tracked
    /// set is the one subscribed to, and otherwise a command for the whole
    /// set on the `ticker` channel. Identifiers count up from 1.
    pub fn sync(&mut self, latest: &Vec<String>) -> (cmd: Option<WsSubscribeCmd>)
        ensures
            match cmd {
                None => (latest@.len() == 0 || old(self).tickers() == texts(latest@))
                    && final(self).tickers() == old(self).tickers() && final(self).next_id()
                    == old(self).next_id(),
                Some(c) => latest@.len() > 0 && old(self).tickers() != texts(latest@) && c.id
                    == old(self).next_id() && c.cmd@ == "subscribe"@ && texts(c.params.channels@)
                    == seq!["ticker"@] && (c.params.market_tickers matches Some(t) && texts(t@)
                    == texts(latest@)) && final(self).tickers() == texts(latest@)
                    && final(self).next_id() == (if old(self).next_id() == u64::MAX {
                    u64::MAX
                } else {
                    (old(self).next_id() + 1) as u64
                }),
            },
    {
        if latest.len() == 0 {
            return None;
        }
        if same_texts(&self.subscribed, latest) {
            return None;
        }
        let mut channels: Vec<String> = Vec::new();
        channels.push(String::from_str("ticker"));
        assert(texts(channels@) =~= seq!["ticker"@]);
        let cmd = WsSubscribeCmd {
            id: self.next_id,
            cmd: String::from_str("subscribe"),
            params: WsSubscribeParams { channels, market_tickers: Some(copy_texts(latest)) },
        };
        self.subscribed = copy_texts(latest);
        if self.next_id < u64::MAX {
            self.next_id = self.next_id + 1;
        }
        Some(cmd)
    }
}

/// Whether two lists hold the same texts in the same order.
pub fn same_texts(a: &Vec<String>, b: &Vec<String>) -> (eq: bool)
    ensures
        eq == (texts(a@) == texts(b@)),
{
    if a.len() != b.len() {
        assert(texts(a@).len() != texts(b@).len());
        return false;
    }
    let mut i: usize = 0;
    while i < a.len()
        invariant
            i <= a.len(),
            a.len() == b.len(),
            forall|k: int| 0 <= k < i ==> texts(a@)[k] == texts(b@)[k],
        decreases a.len() - i,
    {
        if !same_text(a[i].as_str(), b[i].as_str()) {
            assert(texts(a@)[i as int] != texts(b@)[i as int]);
            return false;
        }
        i += 1;
    }
    assert(texts(a@) =~= texts(b@));
    true
}

/// A copy of a list of texts.
pub fn copy_texts(list: &Vec<String>) -> (copy: Vec<String>)
    ensures
        texts(copy@) == texts(list@),
{
    let mut copy: Vec<String> = Vec::new();
    let mut i: usize = 0;
    while i < list.len()
        invariant
            i <= list.len(),
            copy@.len() == i,
            forall|k: int| 0 <= k < i ==> (#[trigger] copy@[k])@ == list@[k]@,
        decreases list.len() - i,
    {
        copy.push(list[i].clone());
        i += 1;
    }
    assert(texts(copy@) =~= texts(list@));
    copy
}

/// The quote that a ticker message carries, stamped `now_ms`.
pub open spec fn quote_of_message(msg: WsTickerMessage, now_ms: u64) -> PriceEntry {
    PriceEntry {
        yes_bid: msg.yes_bid,
        yes_ask: msg.yes_ask,
        last_price: msg.last_price,
        volume: msg.volume,
        updated_at_ms: now_ms,
    }
}

/// Takes a ticker message into the quote book: the quote of the named
/// market is replaced by the one of the message. A message that names no
/// market is dropped.
pub fn apply_ticker(book: &mut QuoteBook, msg: &WsTickerMessage, now_ms: u64) -> (applied: bool)
    ensures
        applied == (msg.market_ticker@.len() > 0),
        final(book)@ == (if applied {
            old(book)@.insert(msg.market_ticker@, quote_of_message(*msg, now_ms))
        } else {
            old(book)@
        }),
{
    if msg.market_ticker.as_str().is_empty() {
        return false;
    }
    book.upsert(
        msg.market_ticker.as_str(),
        PriceEntry {
            yes_bid: msg.yes_bid,
            yes_ask: msg.yes_ask,
            last_price: msg.last_price,
            volume: msg.volume,
            updated_at_ms: now_ms,
        },
    );
    true
}

/// What to do with a message of the stream, by its type.
#[derive(Clone, Copy, Debug, PartialEq, Eq, Structural)]
pub enum MessageKind {
    /// A quote update: take it into the quote book.
    Ticker,
    /// The exchange reports an error: log it.
    Error,
    /// Anything else: ignore it.
    Other,
    /// The message carries no type: ignore it.
    Untyped,
}

/// Sorts a message of the stream by its type.
pub fn message_kind(msg_type: Option<&str>) -> (kind: MessageKind)
    ensures
        kind == (match msg_type {
            None => MessageKind::Untyped,
            Some(t) => if t@ == "ticker"@ {
                MessageKind::Ticker
            } else if t@ == "error"@ {
                MessageKind::Error
            } else {
                MessageKind::Other
            },
        }),
{
    match msg_type {
        None => MessageKind::Untyped,
        Some(t) => {
            if same_text(t, "ticker") {
                MessageKind::Ticker
            } else if same_text(t, "error") {
                MessageKind::Error
            } else {
                MessageKind::Other
            }
        },
    }
}

/// What an address consists of, as far as the handshake reads it.
#[derive(Clone, Debug)]
pub struct AddressParts {
    pub host: Option<String>,
    pub port: Option<u16>,
    pub path: String,
}

/// What `Url::parse` of the `url` crate makes of a text: host, port and
/// path of the address, or else the text of the crate's complaint.
pub uninterp spec fn parsed_address(text: Seq<char>) -> Result<
    (Option<Seq<char>>, Option<u16>, Seq<char>),
    Seq<char>,
>;

/// The parts of an address as mathematical values.
pub open spec fn parts_of(parts: AddressParts) -> (Option<Seq<char>>, Option<u16>, Seq<char>) {
    (crate::types::optional_text(parts.host), parts.port, parts.path@)
}

/// An address, or the complaint about it, as mathematical values.
pub open spec fn address_of(r: Result<AddressParts, String>) -> Result<
    (Option<Seq<char>>, Option<u16>, Seq<char>),
    Seq<char>,
> {
    match r {
        Ok(parts) => Ok(parts_of(parts)),
        Err(complaint) => Err(complaint@),
    }
}

/// `Url::parse` of the `url` crate, read through `host_str`, `port` and
/// `path`; a complaint is given by its `Display`. The result is given
/// the name `parsed_address` and nothing more is claimed of it.
#[verifier::external_body]
fn parse_address(text: &str) -> (r: Result<AddressParts, String>)
    ensures
        address_of(r) == parsed_address(text@),
{
    match url::Url::parse(text) {
        Ok(u) => Ok(
            AddressParts {
                host: u.host_str().map(|h| h.to_string()),
                port: u.port(),
                path: u.path().to_string(),
            },
        ),
        Err(e) => Err(e.to_string()),
    }
}

/// What the handshake of a stream needs of its address.
#[derive(Clone, Debug)]
pub struct Handshake {
    /// The value of the `Host` header: the host, and the port where the
    /// address names one.
    pub host_header: String,
    /// The path that is signed.
    pub path: String,
}

/// The value of the `Host` header for a host and a port.
pub open spec fn host_header(host: Seq<char>, port: Option<u16>) -> Seq<char> {
    match port {
        Some(p) => host + ":"@ + decimal(p as int),
        None => host,
    }
}

/// The path of an address as it is signed.
pub open spec fn path_signed(path: Seq<char>) -> Seq<char> {
    if path.len() == 0 {
        "/"@
    } else {
        path
    }
}

/// What the handshake needs of an address with the given parts: the
/// complaint when the address could not be read or names no host.
pub open spec fn handshake_of(
    address: Seq<char>,
    parsed: Result<(Option<Seq<char>>, Option<u16>, Seq<char>), Seq<char>>,
) -> Result<(Seq<char>, Seq<char>), Seq<char>> {
    match parsed {
        Err(complaint) => Err(complaint),
        Ok((None, _, _)) => Err("WebSocket URL missing host: "@ + address),
        Ok((Some(host), port, path)) => Ok((host_header(host, port), path_signed(path))),
    }
}

/// Whether `r` stands for `expected`.
pub open spec fn is_handshake(r: Result<Handshake, Error>, expected: Result<(Seq<char>, Seq<char>), Seq<char>>) -> bool {
    match r {
        Ok(h) => expected == Ok::<(Seq<char>, Seq<char>), Seq<char>>((h.host_header@, h.path@)),
        Err(e) => e matches Error::WebSocket(m) && expected == Err::<
            (Seq<char>, Seq<char>),
            Seq<char>,
        >(m@),
    }
}

/// What the handshake needs, from the parts that an address was read
/// into.
pub fn handshake_from(address: &str, parsed: Result<AddressParts, String>) -> (r: Result<
    Handshake,
    Error,
>)
    ensures
        is_handshake(r, handshake_of(address@, address_of(parsed))),
{
    match parsed {
        Err(complaint) => Err(Error::WebSocket(complaint)),
        Ok(parts) => match parts.host {
            None => {
                let mut message = String::from_str("WebSocket URL missing host: ");
                push_text(&mut message, address);
                Err(Error::WebSocket(message))
            },
            Some(host) => {
                let mut header = host;
                match parts.port {
                    Some(p) => {
                        push_text(&mut header, ":");
                        push_decimal(&mut header, p as i128);
                    },
                    None => {},
                }
                Ok(Handshake { host_header: header, path: path_to_sign(parts.path.as_str()) })
            },
        },
    }
}

/// What the handshake needs of the address of a stream.
pub fn handshake_target(address: &str) -> (r: Result<Handshake, Error>)
    ensures
        is_handshake(r, handshake_of(address@, parsed_address(address@))),
{
    handshake_from(address, parse_address(address))
}


/// Whether the complaint about a refused handshake speaks of status 401,
/// after which the stream is tried without credentials.
pub fn is_unauthorized(complaint: &str) -> (r: bool)
    ensures
        r == crate::text::contains_text(complaint@, "401"@),
{
    crate::text::contains(complaint, "401")
}


} // verus!
