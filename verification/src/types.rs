//! Plain data shared by every strategy: sides, actions, markets, orders,
//! positions and quotes. Prices are whole cents, times are milliseconds.

use vstd::prelude::*;

verus! {

/// Which side of a binary contract an order refers to.
#[derive(Clone, Copy, Debug, PartialEq, Eq, Structural)]
pub enum Side {
    Yes,
    No,
}

/// Whether an order acquires or disposes of contracts.
#[derive(Clone, Copy, Debug, PartialEq, Eq, Structural)]
pub enum Action {
    Buy,
    Sell,
}

/// How the exchange is to price an order.
#[derive(Clone, Copy, Debug, PartialEq, Eq, Structural)]
pub enum OrderType {
    Limit,
    Market,
}

/// A market as the exchange lists it. Times are milliseconds since the
/// Unix epoch.
#[derive(Clone, Debug)]
pub struct MarketInfo {
    pub ticker: String,
    pub event_ticker: String,
    pub market_type: String,
    pub title: String,
    pub subtitle: String,
    pub status: String,
    pub yes_bid: i64,
    pub yes_ask: i64,
    pub no_bid: i64,
    pub no_ask: i64,
    pub last_price: i64,
    pub volume: i64,
    pub volume_24h: i64,
    pub open_interest: i64,
    pub rules_primary: String,
    pub rules_secondary: String,
    pub close_time_ms: Option<i64>,
    pub expiration_time_ms: Option<i64>,
    pub result: Option<String>,
    pub strike_type: Option<String>,
    pub floor_strike: Option<i64>,
    pub cap_strike: Option<i64>,
    pub functional_strike: Option<String>,
    pub tick_size: Option<i64>,
    pub response_price_units: Option<String>,
}

/// A copy of an optional text.
pub fn copy_optional_text(v: &Option<String>) -> (copy: Option<String>)
    ensures
        copy == *v,
{
    match v {
        Some(s) => Some(s.clone()),
        None => None,
    }
}

impl MarketInfo {
    /// A copy of the market.
    pub fn duplicate(&self) -> (copy: MarketInfo)
        ensures
            copy == *self,
    {
        MarketInfo {
            ticker: self.ticker.clone(),
            event_ticker: self.event_ticker.clone(),
            market_type: self.market_type.clone(),
            title: self.title.clone(),
            subtitle: self.subtitle.clone(),
            status: self.status.clone(),
            yes_bid: self.yes_bid,
            yes_ask: self.yes_ask,
            no_bid: self.no_bid,
            no_ask: self.no_ask,
            last_price: self.last_price,
            volume: self.volume,
            volume_24h: self.volume_24h,
            open_interest: self.open_interest,
            rules_primary: self.rules_primary.clone(),
            rules_secondary: self.rules_secondary.clone(),
            close_time_ms: self.close_time_ms,
            expiration_time_ms: self.expiration_time_ms,
            result: copy_optional_text(&self.result),
            strike_type: copy_optional_text(&self.strike_type),
            floor_strike: self.floor_strike,
            cap_strike: self.cap_strike,
            functional_strike: copy_optional_text(&self.functional_strike),
            tick_size: self.tick_size,
            response_price_units: copy_optional_text(&self.response_price_units),
        }
    }

    /// The exchange lists the market as tradeable: its status is `open`
    /// or `active`.
    pub open spec fn is_listed(&self) -> bool {
        self.status@ == "open"@ || self.status@ == "active"@
    }

    /// Whether the exchange lists the market as tradeable.
    pub fn listed(&self) -> (r: bool)
        ensures
            r == self.is_listed(),
    {
        crate::text::same_text(self.status.as_str(), "active") || crate::text::same_text(
            self.status.as_str(),
            "open",
        )
    }
}

/// An order that a strategy wants placed. `confidence_ppm` is the
/// confidence of the signal behind it, in millionths.
#[derive(Clone, Debug)]
pub struct OrderIntent {
    pub ticker: String,
    pub side: Side,
    pub action: Action,
    pub price_cents: i64,
    pub count: i64,
    pub reason: String,
    pub estimated_fee_cents: i64,
    pub confidence_ppm: i64,
}

/// An order intent as a mathematical value.
pub struct IntentModel {
    pub ticker: Seq<char>,
    pub side: Side,
    pub action: Action,
    pub price_cents: int,
    pub count: int,
    pub reason: Seq<char>,
    pub estimated_fee_cents: int,
    pub confidence_ppm: int,
}

impl View for OrderIntent {
    type V = IntentModel;

    open spec fn view(&self) -> IntentModel {
        IntentModel {
            ticker: self.ticker@,
            side: self.side,
            action: self.action,
            price_cents: self.price_cents as int,
            count: self.count as int,
            reason: self.reason@,
            estimated_fee_cents: self.estimated_fee_cents as int,
            confidence_ppm: self.confidence_ppm as int,
        }
    }
}

impl OrderIntent {
    /// A copy of the intent.
    pub fn duplicate(&self) -> (copy: OrderIntent)
        ensures
            copy@ == self@,
    {
        OrderIntent {
            ticker: self.ticker.clone(),
            side: self.side,
            action: self.action,
            price_cents: self.price_cents,
            count: self.count,
            reason: self.reason.clone(),
            estimated_fee_cents: self.estimated_fee_cents,
            confidence_ppm: self.confidence_ppm,
        }
    }
}

/// The intents of a sequence as mathematical values.
pub open spec fn intent_models(intents: Seq<OrderIntent>) -> Seq<IntentModel> {
    Seq::new(intents.len(), |i: int| intents[i]@)
}

/// The body of an order request to the exchange.
#[derive(Clone, Debug)]
pub struct CreateOrderRequest {
    pub ticker: String,
    pub side: Side,
    pub action: Action,
    pub client_order_id: String,
    pub count: i64,
    pub order_type: OrderType,
    pub yes_price: Option<i64>,
    pub no_price: Option<i64>,
    pub expiration_ts: Option<i64>,
    pub time_in_force: Option<String>,
}

/// An order as the exchange reports it.
#[derive(Clone, Debug)]
pub struct OrderInfo {
    pub order_id: String,
    pub client_order_id: String,
    pub ticker: String,
    pub side: Side,
    pub action: Action,
    pub order_type: OrderType,
    pub status: String,
    pub yes_price: i64,
    pub no_price: i64,
    pub fill_count: i64,
    pub remaining_count: i64,
    pub initial_count: i64,
    pub taker_fees: i64,
    pub maker_fees: i64,
}

/// An order report as a mathematical value.
pub struct OrderModel {
    pub order_id: Seq<char>,
    pub client_order_id: Seq<char>,
    pub ticker: Seq<char>,
    pub side: Side,
    pub action: Action,
    pub order_type: OrderType,
    pub status: Seq<char>,
    pub yes_price: int,
    pub no_price: int,
    pub fill_count: int,
    pub remaining_count: int,
    pub initial_count: int,
    pub taker_fees: int,
    pub maker_fees: int,
}

impl View for OrderInfo {
    type V = OrderModel;

    open spec fn view(&self) -> OrderModel {
        OrderModel {
            order_id: self.order_id@,
            client_order_id: self.client_order_id@,
            ticker: self.ticker@,
            side: self.side,
            action: self.action,
            order_type: self.order_type,
            status: self.status@,
            yes_price: self.yes_price as int,
            no_price: self.no_price as int,
            fill_count: self.fill_count as int,
            remaining_count: self.remaining_count as int,
            initial_count: self.initial_count as int,
            taker_fees: self.taker_fees as int,
            maker_fees: self.maker_fees as int,
        }
    }
}

impl OrderInfo {
    /// A copy of the report.
    pub fn duplicate(&self) -> (copy: OrderInfo)
        ensures
            copy@ == self@,
    {
        OrderInfo {
            order_id: self.order_id.clone(),
            client_order_id: self.client_order_id.clone(),
            ticker: self.ticker.clone(),
            side: self.side,
            action: self.action,
            order_type: self.order_type,
            status: self.status.clone(),
            yes_price: self.yes_price,
            no_price: self.no_price,
            fill_count: self.fill_count,
            remaining_count: self.remaining_count,
            initial_count: self.initial_count,
            taker_fees: self.taker_fees,
            maker_fees: self.maker_fees,
        }
    }
}

/// An order request as a mathematical value.
pub struct RequestModel {
    pub ticker: Seq<char>,
    pub side: Side,
    pub action: Action,
    pub client_order_id: Seq<char>,
    pub count: int,
    pub order_type: OrderType,
    pub yes_price: Option<int>,
    pub no_price: Option<int>,
    pub expiration_ts: Option<int>,
    pub time_in_force: Option<Seq<char>>,
}

/// An optional amount as a mathematical value.
pub open spec fn amount(v: Option<i64>) -> Option<int> {
    match v {
        Some(x) => Some(x as int),
        None => None,
    }
}

/// An optional text as a mathematical value.
pub open spec fn optional_text(v: Option<String>) -> Option<Seq<char>> {
    match v {
        Some(x) => Some(x@),
        None => None,
    }
}

impl View for CreateOrderRequest {
    type V = RequestModel;

    open spec fn view(&self) -> RequestModel {
        RequestModel {
            ticker: self.ticker@,
            side: self.side,
            action: self.action,
            client_order_id: self.client_order_id@,
            count: self.count as int,
            order_type: self.order_type,
            yes_price: amount(self.yes_price),
            no_price: amount(self.no_price),
            expiration_ts: amount(self.expiration_ts),
            time_in_force: optional_text(self.time_in_force),
        }
    }
}

/// The requests of a sequence as mathematical values.
pub open spec fn request_models(requests: Seq<CreateOrderRequest>) -> Seq<RequestModel> {
    Seq::new(requests.len(), |i: int| requests[i]@)
}

/// The reports of a sequence as mathematical values.
pub open spec fn order_models(orders: Seq<OrderInfo>) -> Seq<OrderModel> {
    Seq::new(orders.len(), |i: int| orders[i]@)
}

/// The error that the exchange attaches to one entry of a batch.
#[derive(Clone, Debug)]
pub struct BatchOrderError {
    pub code: Option<String>,
    pub message: Option<String>,
}

/// One entry of the exchange's answer to a batch: an order, or an error.
#[derive(Clone, Debug)]
pub struct BatchOrderEntry {
    pub client_order_id: Option<String>,
    pub order: Option<OrderInfo>,
    pub error: Option<BatchOrderError>,
}

/// A batch of order requests.
#[derive(Clone, Debug)]
pub struct BatchOrderRequest {
    pub orders: Vec<CreateOrderRequest>,
}

/// The exchange's answer to a batch.
#[derive(Clone, Debug)]
pub struct BatchOrderResponse {
    pub orders: Vec<BatchOrderEntry>,
}

/// An event with the markets listed under it.
#[derive(Clone, Debug)]
pub struct EventInfo {
    pub event_ticker: String,
    pub title: String,
    pub mutually_exclusive: bool,
    pub markets: Vec<MarketInfo>,
}

/// The exchange's answer to a single order.
#[derive(Clone, Debug)]
pub struct CreateOrderResponse {
    pub order: OrderInfo,
}

/// A holding in one market. Counts are signed: a short is negative.
#[derive(Clone, Debug)]
pub struct Position {
    pub ticker: String,
    pub yes_count: i64,
    pub no_count: i64,
    pub market_exposure: i64,
    pub realized_pnl: i64,
}

/// One page of positions.
#[derive(Clone, Debug)]
pub struct PositionsResponse {
    pub market_positions: Vec<Position>,
    pub cursor: Option<String>,
}

/// The account balance, in cents.
#[derive(Clone, Copy, Debug, PartialEq, Eq, Structural)]
pub struct BalanceResponse {
    pub balance: i64,
}

/// A subscribe command of the streaming feed.
#[derive(Clone, Debug)]
pub struct WsSubscribeCmd {
    pub id: u64,
    pub cmd: String,
    pub params: WsSubscribeParams,
}

/// What a subscribe command asks for.
#[derive(Clone, Debug)]
pub struct WsSubscribeParams {
    pub channels: Vec<String>,
    pub market_tickers: Option<Vec<String>>,
}

/// A ticker update of the streaming feed.
#[derive(Clone, Debug)]
pub struct WsTickerMessage {
    pub market_ticker: String,
    pub yes_bid: i64,
    pub yes_ask: i64,
    pub last_price: i64,
    pub volume: i64,
}

/// Lowest price, in cents, at which a contract can be quoted or ordered.
pub const MIN_PRICE_CENTS: i64 = 1;

/// Highest price, in cents, at which a contract can be quoted or ordered.
pub const MAX_PRICE_CENTS: i64 = 99;

/// What a contract pays, in cents, when it resolves in the holder's favour.
pub const PAYOUT_CENTS: i64 = 100;

/// One probability unit: probabilities are carried as millionths.
pub const PPM: i64 = 1_000_000;

/// A price an order may carry: a whole number of cents from 1 to 99.
pub open spec fn valid_order_price(price_cents: int) -> bool {
    1 <= price_cents <= 99
}

/// Whether a price can stand on an order: from 1 to 99 cents.
pub fn is_valid_order_price(price_cents: i64) -> (ok: bool)
    ensures
        ok == valid_order_price(price_cents as int),
{
    MIN_PRICE_CENTS <= price_cents && price_cents <= MAX_PRICE_CENTS
}

/// The action that offsets `action`.
pub open spec fn opposite_action(action: Action) -> Action {
    match action {
        Action::Buy => Action::Sell,
        Action::Sell => Action::Buy,
    }
}

impl Action {
    /// The action that undoes this one.
    pub fn opposite(self) -> (r: Action)
        ensures
            r == opposite_action(self),
    {
        match self {
            Action::Buy => Action::Sell,
            Action::Sell => Action::Buy,
        }
    }
}

/// The lower-case name of a side, as written to the journal.
pub fn side_label(side: Side) -> (label: &'static str)
    ensures
        label@ == (if side == Side::Yes {
            "yes"@
        } else {
            "no"@
        }),
{
    match side {
        Side::Yes => "yes",
        Side::No => "no",
    }
}

/// The lower-case name of an action, as written to the journal.
pub fn action_label(action: Action) -> (label: &'static str)
    ensures
        label@ == (if action == Action::Buy {
            "buy"@
        } else {
            "sell"@
        }),
{
    match action {
        Action::Buy => "buy",
        Action::Sell => "sell",
    }
}

} // verus!
