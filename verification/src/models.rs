use vstd::prelude::*;
use crate::decimal::{Dec, decimal_from_str, parse_decimal};
use crate::error::BotError;
use crate::text::{lowercase_eq, lowercase_spec, opt_str_eq, str_eq};

verus! {

// ---------------------------------------------------------------- decimals

/// `r` is what parsing the decimal text `s` gives: the parsed value, or
/// `InvalidDecimal` carrying the text.
pub open spec fn parsed_as(r: Result<Dec, BotError>, s: Seq<char>) -> bool {
    match decimal_from_str(s) {
        Some(d) => r == Ok::<Dec, BotError>(d),
        None => r matches Err(BotError::InvalidDecimal(t)) && t@ == s,
    }
}

/// Parses a decimal field of a message or a stored row.
pub fn parse_decimal_field(s: &str) -> (r: Result<Dec, BotError>)
    ensures
        parsed_as(r, s@),
        r matches Ok(d) ==> d.wf(),
{
    match parse_decimal(s) {
        Some(d) => Ok(d),
        None => Err(BotError::InvalidDecimal(s.to_owned())),
    }
}

/// The decimal digits of a natural number, most significant first.
pub open spec fn nat_digits(n: nat) -> Seq<char>
    decreases n,
{
    if n < 10 {
        seq![(n + 48) as char]
    } else {
        nat_digits(n / 10).push(((n % 10) + 48) as char)
    }
}

/// The digits of a positive number agree in both spellings.
proof fn lemma_digits_of_positive(n: nat)
    requires
        n > 0,
    ensures
        crate::text::digits(n) == nat_digits(n),
    decreases n,
{
    if n >= 10 {
        lemma_digits_of_positive(n / 10);
    } else {
        assert(crate::text::digits(n / 10) =~= Seq::<char>::empty());
    }
}

/// Writes a non-negative `i16` in decimal, as its `Display` does.
fn i16_text(n: i16) -> (r: String)
    requires
        n >= 0,
    ensures
        r@ == nat_digits(n as nat),
{
    let mut r = String::new();
    if n == 0 {
        crate::text::push_char(&mut r, '0');
        assert(r@ =~= nat_digits(0));
        return r;
    }
    let ds = crate::text::digit_chars(n as u128);
    proof {
        lemma_digits_of_positive(n as nat);
    }
    let mut i: usize = 0;
    while i < ds.len()
        invariant
            i <= ds@.len(),
            r@ == ds@.take(i as int),
        decreases ds@.len() - i,
    {
        crate::text::push_char(&mut r, ds[i]);
        assert(r@ =~= ds@.take(i + 1));
        i = i + 1;
    }
    assert(ds@.take(i as int) =~= ds@);
    r
}

// ---------------------------------------------------------------- enums

/// Which order of a bot an exchange order is.
#[derive(Clone, Copy, Debug, PartialEq, Eq, Structural)]
pub enum BotOrderType {
    Entry,
    TakeProfit,
    StopLoss,
}

/// How much an order trades: a base-currency size or quote-currency funds.
#[derive(Clone, Debug)]
pub enum OrderAmount {
    Size(String),
    Funds(String),
}

/// The topic of a websocket message.
#[derive(Clone, Copy, Debug, PartialEq, Eq, Structural)]
pub enum OrderTopic {
    Balance,
    TradeOrders,
    AdvancedOrders,
    Position,
    Unknown,
}

/// The type of an order.
#[derive(Clone, Copy, Debug, PartialEq, Eq, Structural)]
pub enum OrderType {
    Market,
    Limit,
    Stop,
    Unknown,
}

impl OrderType {
    /// The lowercase name of the order type.
    pub open spec fn text(self) -> Seq<char> {
        match self {
            OrderType::Market => "market"@,
            OrderType::Limit => "limit"@,
            OrderType::Stop => "stop"@,
            OrderType::Unknown => "unknown"@,
        }
    }

    /// The order type that a lowercased name stands for; any other name is `Unknown`.
    pub open spec fn from_lowercase(s: Seq<char>) -> OrderType {
        if s == "market"@ {
            OrderType::Market
        } else if s == "limit"@ {
            OrderType::Limit
        } else if s == "stop"@ {
            OrderType::Stop
        } else {
            OrderType::Unknown
        }
    }

    pub fn as_str(&self) -> (r: &'static str)
        ensures
            r@ == self.text(),
    {
        match self {
            OrderType::Market => "market",
            OrderType::Limit => "limit",
            OrderType::Stop => "stop",
            OrderType::Unknown => "unknown",
        }
    }
}

impl<'a> From<&'a str> for OrderType {
    fn from(s: &'a str) -> (r: OrderType) {
        if lowercase_eq(s, "market") {
            OrderType::Market
        } else if lowercase_eq(s, "limit") {
            OrderType::Limit
        } else if lowercase_eq(s, "stop") {
            OrderType::Stop
        } else {
            OrderType::Unknown
        }
    }
}

impl<'a> vstd::std_specs::convert::FromSpecImpl<&'a str> for OrderType {
    open spec fn obeys_from_spec() -> bool {
        true
    }

    open spec fn from_spec(v: &'a str) -> OrderType {
        OrderType::from_lowercase(lowercase_spec(v@))
    }
}

/// The kind of an order event.
#[derive(Clone, Copy, Debug, PartialEq, Eq, Structural)]
pub enum OrderEventType {
    Match,
    Canceled,
    Received,
    Open,
    Filled,
    Partial,
    Unknown,
}

impl OrderEventType {
    /// The lowercase name of the event kind.
    pub open spec fn text(self) -> Seq<char> {
        match self {
            OrderEventType::Match => "match"@,
            OrderEventType::Canceled => "canceled"@,
            OrderEventType::Received => "received"@,
            OrderEventType::Open => "open"@,
            OrderEventType::Filled => "filled"@,
            OrderEventType::Partial => "partial"@,
            OrderEventType::Unknown => "unknown"@,
        }
    }

    /// The event kind that a lowercased name stands for; any other name is `Unknown`.
    pub open spec fn from_lowercase(s: Seq<char>) -> OrderEventType {
        if s == "match"@ {
            OrderEventType::Match
        } else if s == "canceled"@ {
            OrderEventType::Canceled
        } else if s == "received"@ {
            OrderEventType::Received
        } else if s == "open"@ {
            OrderEventType::Open
        } else if s == "filled"@ {
            OrderEventType::Filled
        } else if s == "partial"@ {
            OrderEventType::Partial
        } else {
            OrderEventType::Unknown
        }
    }

    pub fn as_str(&self) -> (r: &'static str)
        ensures
            r@ == self.text(),
    {
        match self {
            OrderEventType::Match => "match",
            OrderEventType::Canceled => "canceled",
            OrderEventType::Received => "received",
            OrderEventType::Open => "open",
            OrderEventType::Filled => "filled",
            OrderEventType::Partial => "partial",
            OrderEventType::Unknown => "unknown",
        }
    }
}

impl<'a> From<&'a str> for OrderEventType {
    fn from(s: &'a str) -> (r: OrderEventType) {
        if lowercase_eq(s, "match") {
            OrderEventType::Match
        } else if lowercase_eq(s, "canceled") {
            OrderEventType::Canceled
        } else if lowercase_eq(s, "received") {
            OrderEventType::Received
        } else if lowercase_eq(s, "open") {
            OrderEventType::Open
        } else if lowercase_eq(s, "filled") {
            OrderEventType::Filled
        } else if lowercase_eq(s, "partial") {
            OrderEventType::Partial
        } else {
            OrderEventType::Unknown
        }
    }
}

impl<'a> vstd::std_specs::convert::FromSpecImpl<&'a str> for OrderEventType {
    open spec fn obeys_from_spec() -> bool {
        true
    }

    open spec fn from_spec(v: &'a str) -> OrderEventType {
        OrderEventType::from_lowercase(lowercase_spec(v@))
    }
}

/// The side of an order.
#[derive(Clone, Copy, Debug, PartialEq, Eq, Structural)]
pub enum OrderSide {
    Buy,
    Sell,
    Unknown,
}

impl OrderSide {
    /// The lowercase name of the side.
    pub open spec fn text(self) -> Seq<char> {
        match self {
            OrderSide::Buy => "buy"@,
            OrderSide::Sell => "sell"@,
            OrderSide::Unknown => "unknown"@,
        }
    }

    /// The side that a lowercased name stands for; any other name is `Unknown`.
    pub open spec fn from_lowercase(s: Seq<char>) -> OrderSide {
        if s == "buy"@ {
            OrderSide::Buy
        } else if s == "sell"@ {
            OrderSide::Sell
        } else {
            OrderSide::Unknown
        }
    }

    pub fn as_str(&self) -> (r: &'static str)
        ensures
            r@ == self.text(),
    {
        match self {
            OrderSide::Buy => "buy",
            OrderSide::Sell => "sell",
            OrderSide::Unknown => "unknown",
        }
    }
}

impl<'a> From<&'a str> for OrderSide {
    fn from(s: &'a str) -> (r: OrderSide) {
        if lowercase_eq(s, "buy") {
            OrderSide::Buy
        } else if lowercase_eq(s, "sell") {
            OrderSide::Sell
        } else {
            OrderSide::Unknown
        }
    }
}

impl<'a> vstd::std_specs::convert::FromSpecImpl<&'a str> for OrderSide {
    open spec fn obeys_from_spec() -> bool {
        true
    }

    open spec fn from_spec(v: &'a str) -> OrderSide {
        OrderSide::from_lowercase(lowercase_spec(v@))
    }
}

/// The kind of a stop order: it triggers when the price falls to (`Loss`)
/// or rises to (`Entry`) the stop price.
#[derive(Clone, Copy, Debug, PartialEq, Eq, Structural)]
pub enum StopType {
    Loss,
    Entry,
    Unknown,
}

impl StopType {
    /// The lowercase name of the stop type.
    pub open spec fn text(self) -> Seq<char> {
        match self {
            StopType::Loss => "loss"@,
            StopType::Entry => "entry"@,
            StopType::Unknown => "unknown"@,
        }
    }

    /// The stop type that a name stands for, matched exactly; any other name is `Unknown`.
    pub open spec fn from_text(s: Seq<char>) -> StopType {
        if s == "loss"@ {
            StopType::Loss
        } else if s == "entry"@ {
            StopType::Entry
        } else {
            StopType::Unknown
        }
    }

    pub fn as_str(&self) -> (r: &'static str)
        ensures
            r@ == self.text(),
    {
        match self {
            StopType::Loss => "loss",
            StopType::Entry => "entry",
            StopType::Unknown => "unknown",
        }
    }
}

impl<'a> From<&'a str> for StopType {
    fn from(s: &'a str) -> (r: StopType) {
        if str_eq(s, "loss") {
            StopType::Loss
        } else if str_eq(s, "entry") {
            StopType::Entry
        } else {
            StopType::Unknown
        }
    }
}

impl<'a> vstd::std_specs::convert::FromSpecImpl<&'a str> for StopType {
    open spec fn obeys_from_spec() -> bool {
        true
    }

    open spec fn from_spec(v: &'a str) -> StopType {
        StopType::from_text(v@)
    }
}

} // verus!

verus! {

/// Naming an order type and reading the name back gives the same order type.
pub proof fn law_order_type_name_round_trip(t: OrderType)
    ensures
        OrderType::from_lowercase(lowercase_spec(t.text())) == t,
{
    reveal_strlit("market");
    reveal_strlit("limit");
    reveal_strlit("stop");
    reveal_strlit("unknown");
    assert(lowercase_spec("market"@) =~= "market"@);
    assert(lowercase_spec("limit"@) =~= "limit"@);
    assert(lowercase_spec("stop"@) =~= "stop"@);
    assert(lowercase_spec("unknown"@) =~= "unknown"@);
}

} // verus!

verus! {

/// Reading an event kind's name back gives the same event kind.
pub proof fn law_order_event_type_name_round_trip(t: OrderEventType)
    ensures
        OrderEventType::from_lowercase(lowercase_spec(t.text())) == t,
{
    reveal_strlit("match");
    reveal_strlit("canceled");
    reveal_strlit("received");
    reveal_strlit("open");
    reveal_strlit("filled");
    reveal_strlit("partial");
    reveal_strlit("unknown");
    assert(lowercase_spec("match"@) =~= "match"@);
    assert(lowercase_spec("canceled"@) =~= "canceled"@);
    assert(lowercase_spec("received"@) =~= "received"@);
    assert(lowercase_spec("open"@) =~= "open"@);
    assert(lowercase_spec("filled"@) =~= "filled"@);
    assert(lowercase_spec("partial"@) =~= "partial"@);
    assert(lowercase_spec("unknown"@) =~= "unknown"@);
    assert("match"@[0] == 'm' && "canceled"@[0] == 'c' && "received"@[0] == 'r');
    assert("open"@[0] == 'o' && "filled"@[0] == 'f' && "partial"@[0] == 'p');
    assert("unknown"@[0] == 'u');
}

/// Reading a side's name back gives the same side.
pub proof fn law_order_side_name_round_trip(t: OrderSide)
    ensures
        OrderSide::from_lowercase(lowercase_spec(t.text())) == t,
{
    reveal_strlit("buy");
    reveal_strlit("sell");
    reveal_strlit("unknown");
    assert(lowercase_spec("buy"@) =~= "buy"@);
    assert(lowercase_spec("sell"@) =~= "sell"@);
    assert(lowercase_spec("unknown"@) =~= "unknown"@);
}

/// Reading a stop type's name back gives the same stop type.
pub proof fn law_stop_type_name_round_trip(t: StopType)
    ensures
        StopType::from_text(t.text()) == t,
{
    reveal_strlit("loss");
    reveal_strlit("entry");
    reveal_strlit("unknown");
    assert("loss"@[0] == 'l' && "entry"@[0] == 'e' && "unknown"@[0] == 'u');
}

/// Lowercasing an ASCII text changes nothing that ASCII lowercasing has
/// done already: `lowercase(lowercase(s)) == lowercase(s)`, and the result is ASCII.
pub proof fn lemma_ascii_lowercase_idempotent(s: Seq<char>)
    requires
        vstd::utf8::is_ascii_chars(s),
    ensures
        vstd::utf8::is_ascii_chars(crate::text::ascii_lowercase(s)),
        lowercase_spec(crate::text::ascii_lowercase(s)) == crate::text::ascii_lowercase(s),
        lowercase_spec(s) == crate::text::ascii_lowercase(s),
{
    let l = crate::text::ascii_lowercase(s);
    assert(vstd::utf8::is_ascii_chars(l)) by {
        assert forall|i: int| 0 <= i < l.len() implies '\0' <= #[trigger] l[i] <= '\u{7f}' by {
            assert(s[i] <= '\u{7f}');
        }
    }
    assert(crate::text::ascii_lowercase(l) =~= l);
}

/// Order types are read case-insensitively: an ASCII name and its
/// lowercase form give the same order type.
pub proof fn law_order_type_case_insensitive(s: Seq<char>)
    requires
        vstd::utf8::is_ascii_chars(s),
    ensures
        OrderType::from_lowercase(lowercase_spec(s)) == OrderType::from_lowercase(
            lowercase_spec(crate::text::ascii_lowercase(s)),
        ),
{
    lemma_ascii_lowercase_idempotent(s);
}

/// Event kinds are read case-insensitively.
pub proof fn law_order_event_type_case_insensitive(s: Seq<char>)
    requires
        vstd::utf8::is_ascii_chars(s),
    ensures
        OrderEventType::from_lowercase(lowercase_spec(s)) == OrderEventType::from_lowercase(
            lowercase_spec(crate::text::ascii_lowercase(s)),
        ),
{
    lemma_ascii_lowercase_idempotent(s);
}

/// Sides are read case-insensitively.
pub proof fn law_order_side_case_insensitive(s: Seq<char>)
    requires
        vstd::utf8::is_ascii_chars(s),
    ensures
        OrderSide::from_lowercase(lowercase_spec(s)) == OrderSide::from_lowercase(
            lowercase_spec(crate::text::ascii_lowercase(s)),
        ),
{
    lemma_ascii_lowercase_idempotent(s);
}

} // verus!

verus! {

// ---------------------------------------------------------------- exchange messages

#[derive(Debug)]
pub struct ApiV3BulletPrivateDataInstanceServers {
    pub endpoint: String,
}

#[derive(Debug)]
pub struct ApiV3BulletPrivateData {
    pub token: String,
    pub instance_servers: Vec<ApiV3BulletPrivateDataInstanceServers>,
}

#[derive(Debug)]
pub struct ApiV3BulletPrivate {
    pub code: String,
    pub msg: Option<String>,
    pub data: Option<ApiV3BulletPrivateData>,
}

#[derive(Debug)]
pub struct WelcomeData {
    pub id: String,
}

#[derive(Debug)]
pub struct AckData {
    pub id: String,
}

#[derive(Debug, Clone)]
pub struct BalanceRelationContext {
    pub symbol: Option<String>,
    pub order_id: Option<String>,
    pub trade_id: Option<String>,
}

#[derive(Debug, Clone)]
pub struct BalanceData {
    pub account_id: String,
    pub available: String,
    pub available_change: String,
    pub currency: String,
    pub hold: String,
    pub hold_change: String,
    pub relation_event: String,
    pub relation_event_id: String,
    pub time: String,
    pub total: String,
    pub relation_context: Option<BalanceRelationContext>,
}

/// One asset of a margin position.
#[derive(Debug)]
pub struct AssetInfo {
    pub total: String,
    pub available: String,
    pub hold: String,
}

impl AssetInfo {
    pub fn available_decimal(&self) -> (r: Result<Dec, BotError>)
        ensures
            parsed_as(r, self.available@),
            r matches Ok(d) ==> d.wf(),
    {
        parse_decimal_field(self.available.as_str())
    }
}

/// An order event from the trade-orders topic.
#[derive(Debug, Clone)]
pub struct OrderData {
    pub status: String,
    pub type_: OrderEventType,
    pub symbol: String,
    pub side: OrderSide,
    pub order_type: OrderType,
    pub fee_type: Option<String>,
    pub liquidity: Option<String>,
    pub price: Option<String>,
    pub order_id: String,
    pub client_oid: Option<String>,
    pub trade_id: Option<String>,
    pub origin_size: Option<String>,
    pub origin_funds: Option<String>,
    pub size: Option<String>,
    pub filled_size: Option<String>,
    pub match_size: Option<String>,
    pub match_price: Option<String>,
    pub canceled_size: Option<String>,
    pub old_size: Option<String>,
    pub remain_size: Option<String>,
    pub remain_funds: Option<String>,
    pub order_time: i64,
    pub ts: i64,
}

/// An optional text is present and is exactly `"0"`.
pub open spec fn is_zero_text(t: Option<String>) -> bool {
    t matches Some(x) && x@ == "0"@
}

impl OrderData {
    /// The event ends the order's life: a match or a cancel.
    pub open spec fn terminal(self) -> bool {
        self.type_ == OrderEventType::Match || self.type_ == OrderEventType::Canceled
    }

    /// Nothing of the order remains: remaining size or remaining funds is `"0"`.
    pub open spec fn remain_zero(self) -> bool {
        is_zero_text(self.remain_size) || is_zero_text(self.remain_funds)
    }

    /// The filled size as a decimal: `MissingValue` when absent.
    pub fn filled_size_decimal(&self) -> (r: Result<Dec, BotError>)
        ensures
            match self.filled_size {
                None => r matches Err(BotError::MissingValue),
                Some(t) => parsed_as(r, t@),
            },
            r matches Ok(d) ==> d.wf(),
    {
        match self.filled_size.as_ref() {
            Some(filled_size) => parse_decimal_field(filled_size.as_str()),
            None => Err(BotError::MissingValue),
        }
    }

    pub fn is_terminal(&self) -> (r: bool)
        ensures
            r == self.terminal(),
    {
        match self.type_ {
            OrderEventType::Match | OrderEventType::Canceled => true,
            _ => false,
        }
    }

    pub fn is_remain_zero(&self) -> (r: bool)
        ensures
            r == self.remain_zero(),
            r == ((self.remain_size matches Some(x) && x@ == "0"@) || (self.remain_funds matches Some(x) && x@ == "0"@)),
    {
        opt_str_eq(&self.remain_size, "0") || opt_str_eq(&self.remain_funds, "0")
    }

    /// The event completes the order, so the bot acts on it.
    pub fn should_process(&self) -> (r: bool)
        ensures
            r == (self.terminal() && self.remain_zero()),
            r == ((self.type_ == OrderEventType::Match || self.type_ == OrderEventType::Canceled)
                && ((self.remain_size matches Some(x) && x@ == "0"@) || (self.remain_funds matches Some(x) && x@ == "0"@))),
    {
        self.is_terminal() && self.is_remain_zero()
    }
}

#[derive(Debug)]
pub struct ErrorData {
    pub id: String,
    pub code: i64,
    pub data: String,
}

/// A stored trading pair and its increments.
#[derive(Debug, Clone)]
pub struct Symbol {
    pub exchange: String,
    pub symbol: String,
    pub base_increment: String,
    pub min_funds: Option<String>,
    pub price_increment: String,
    pub quote_increment: String,
    pub base_min_size: String,
    pub quote_min_size: String,
}

impl Symbol {
    pub fn base_increment_decimal(&self) -> (r: Result<Dec, BotError>)
        ensures
            parsed_as(r, self.base_increment@),
            r matches Ok(d) ==> d.wf(),
    {
        parse_decimal_field(self.base_increment.as_str())
    }

    pub fn quote_increment_decimal(&self) -> (r: Result<Dec, BotError>)
        ensures
            parsed_as(r, self.quote_increment@),
            r matches Ok(d) ==> d.wf(),
    {
        parse_decimal_field(self.quote_increment.as_str())
    }

    pub fn price_increment_decimal(&self) -> (r: Result<Dec, BotError>)
        ensures
            parsed_as(r, self.price_increment@),
            r matches Ok(d) ==> d.wf(),
    {
        parse_decimal_field(self.price_increment.as_str())
    }

    pub fn base_min_size_decimal(&self) -> (r: Result<Dec, BotError>)
        ensures
            parsed_as(r, self.base_min_size@),
            r matches Ok(d) ==> d.wf(),
    {
        parse_decimal_field(self.base_min_size.as_str())
    }

    pub fn quote_min_size_decimal(&self) -> (r: Result<Dec, BotError>)
        ensures
            parsed_as(r, self.quote_min_size@),
            r matches Ok(d) ==> d.wf(),
    {
        parse_decimal_field(self.quote_min_size.as_str())
    }

    /// The minimum funds as a decimal: `MissingValue` when absent.
    pub fn min_funds_decimal(&self) -> (r: Result<Dec, BotError>)
        ensures
            match self.min_funds {
                None => r matches Err(BotError::MissingValue),
                Some(t) => parsed_as(r, t@),
            },
            r matches Ok(d) ==> d.wf(),
    {
        match self.min_funds.as_ref() {
            Some(min_funds) => parse_decimal_field(min_funds.as_str()),
            None => Err(BotError::MissingValue),
        }
    }
}

/// A stored currency's precision (number of fractional digits).
#[derive(Debug)]
pub struct Currencies {
    pub precision: i16,
}

impl Currencies {
    /// The text `1e-<precision>` that the precision is parsed from.
    pub open spec fn precision_text(self) -> Seq<char> {
        "1e-"@ + nat_digits(self.precision as nat)
    }

    /// The smallest step of the currency, `10^-precision`, parsed from
    /// `1e-<precision>`: `NegativePrecision` below zero.
    pub fn precision_decimal(&self) -> (r: Result<Dec, BotError>)
        ensures
            self.precision < 0 ==> (r matches Err(BotError::NegativePrecision(p)) && p == self.precision),
            self.precision >= 0 ==> parsed_as(r, self.precision_text()),
            r matches Ok(d) ==> d.wf(),
    {
        if self.precision < 0 {
            return Err(BotError::NegativePrecision(self.precision));
        }
        let mut text = String::from_str("1e-");
        let digits = i16_text(self.precision);
        text.append(digits.as_str());
        parse_decimal_field(text.as_str())
    }
}

#[derive(Debug)]
pub struct MakeOrderResData {
    pub order_id: String,
    pub client_oid: String,
}

#[derive(Debug)]
pub struct MakeOrderRes {
    pub code: String,
    pub msg: Option<String>,
    pub data: Option<MakeOrderResData>,
}

/// What the exchange answers to a placed stop order.
#[derive(Debug, Clone)]
pub struct MakeStopOrderResData {
    pub order_id: String,
    pub client_oid: String,
}

#[derive(Debug)]
pub struct MakeStopOrderRes {
    pub code: String,
    pub msg: Option<String>,
    pub data: Option<MakeStopOrderResData>,
}

#[derive(Debug)]
pub struct ApiV3MarginRepayResData {
    pub timestamp: u64,
    pub order_no: String,
    pub actual_size: String,
}

#[derive(Debug)]
pub struct ApiV3MarginRepayRes {
    pub code: String,
    pub msg: Option<String>,
    pub data: Option<ApiV3MarginRepayResData>,
}

#[derive(Debug)]
pub struct ApiV3AccountsUniversalTransferResData {
    pub order_id: String,
}

#[derive(Debug)]
pub struct ApiV3HfMarginStopOrdersResDataItem {
    pub id: String,
}

/// A page of the open stop orders.
#[derive(Debug)]
pub struct ApiV3HfMarginStopOrdersResData {
    pub total_num: i32,
    pub items: Vec<ApiV3HfMarginStopOrdersResDataItem>,
}

#[derive(Debug)]
pub struct ApiV3HfMarginStopOrdersRes {
    pub code: String,
    pub msg: Option<String>,
    pub data: Option<ApiV3HfMarginStopOrdersResData>,
}

#[derive(Debug)]
pub struct ApiV3AccountsUniversalTransferRes {
    pub code: String,
    pub msg: Option<String>,
    pub data: Option<ApiV3AccountsUniversalTransferResData>,
}

#[derive(Debug)]
pub struct ApiV3HfMarginStopOrderCancelByClientOidResData {
    pub cancelled_order_ids: Vec<String>,
}

#[derive(Debug)]
pub struct ApiV3HfMarginStopOrderCancelByIdResData {
    pub cancelled_order_ids: Vec<String>,
}

#[derive(Debug)]
pub struct ApiV3HfMarginStopOrderCancelByClientOidRes {
    pub code: String,
    pub msg: Option<String>,
    pub data: Option<ApiV3HfMarginStopOrderCancelByClientOidResData>,
}

#[derive(Debug)]
pub struct ApiV3HfMarginStopOrderCancelByIdRes {
    pub code: String,
    pub msg: Option<String>,
    pub data: Option<ApiV3HfMarginStopOrderCancelByIdResData>,
}

/// One currency of the margin account.
#[derive(Debug)]
pub struct MarginAccountDataAccount {
    pub currency: String,
    pub available: String,
    pub liability: String,
}

impl MarginAccountDataAccount {
    pub fn available_decimal(&self) -> (r: Result<Dec, BotError>)
        ensures
            parsed_as(r, self.available@),
            r matches Ok(d) ==> d.wf(),
    {
        parse_decimal_field(self.available.as_str())
    }

    pub fn liability_decimal(&self) -> (r: Result<Dec, BotError>)
        ensures
            parsed_as(r, self.liability@),
            r matches Ok(d) ==> d.wf(),
    {
        parse_decimal_field(self.liability.as_str())
    }
}

#[derive(Debug)]
pub struct MarginAccountData {
    pub accounts: Vec<MarginAccountDataAccount>,
}

#[derive(Debug)]
pub struct MarginAccount {
    pub code: String,
    pub msg: Option<String>,
    pub data: MarginAccountData,
}

} // verus!

verus! {

/// A stored bot: its balance and the client order ids of its entry order
/// and of its take-profit and stop-loss exit orders.
#[derive(Debug)]
pub struct Bot {
    pub id: i32,
    pub balance: String,
    pub entry_client_oid: Option<String>,
    pub exit_tp_client_oid: Option<String>,
    pub exit_sl_client_oid: Option<String>,
}

/// An optional text is present and equal to `s`.
pub open spec fn holds_text(t: Option<String>, s: Seq<char>) -> bool {
    t matches Some(x) && x@ == s
}

impl Bot {
    /// Which of the bot's orders a client order id names, checking the
    /// entry, then the take-profit, then the stop-loss slot.
    pub open spec fn order_type_of(self, client_oid: Seq<char>) -> Option<BotOrderType> {
        if holds_text(self.entry_client_oid, client_oid) {
            Some(BotOrderType::Entry)
        } else if holds_text(self.exit_tp_client_oid, client_oid) {
            Some(BotOrderType::TakeProfit)
        } else if holds_text(self.exit_sl_client_oid, client_oid) {
            Some(BotOrderType::StopLoss)
        } else {
            None
        }
    }

    pub fn get_order_type(&self, client_oid: &str) -> (r: Option<BotOrderType>)
        ensures
            r == self.order_type_of(client_oid@),
            (self.entry_client_oid matches Some(e) && e@ == client_oid@) ==> r == Some(BotOrderType::Entry),
            r is Some <==> ((self.entry_client_oid matches Some(e) && e@ == client_oid@)
                || (self.exit_tp_client_oid matches Some(t) && t@ == client_oid@)
                || (self.exit_sl_client_oid matches Some(x) && x@ == client_oid@)),
    {
        if opt_str_eq(&self.entry_client_oid, client_oid) {
            Some(BotOrderType::Entry)
        } else if opt_str_eq(&self.exit_tp_client_oid, client_oid) {
            Some(BotOrderType::TakeProfit)
        } else if opt_str_eq(&self.exit_sl_client_oid, client_oid) {
            Some(BotOrderType::StopLoss)
        } else {
            None
        }
    }

    pub fn balance_decimal(&self) -> (r: Result<Dec, BotError>)
        ensures
            parsed_as(r, self.balance@),
            r matches Ok(d) ==> d.wf(),
    {
        parse_decimal_field(self.balance.as_str())
    }
}

/// A stop-order event from the advanced-orders topic.
#[derive(Debug)]
pub struct AdvancedOrders {
    pub created_at: i64,
    pub funds: Option<String>,
    pub size: Option<String>,
    pub order_id: String,
    pub order_type: String,
    pub side: OrderSide,
    pub stop: StopType,
    pub stop_price: String,
    pub symbol: String,
    pub trade_type: String,
    pub ts: i64,
    pub type_: String,
    pub error: Option<String>,
}

/// A stop order as the bot stores and places it.
#[derive(Debug)]
pub struct StopOrderData {
    pub client_oid: String,
    pub side: OrderSide,
    pub symbol: String,
    pub order_type: OrderType,
    pub stop: StopType,
    pub stop_price: String,
    pub is_isolated: bool,
    pub auto_borrow: bool,
    pub auto_repay: bool,
    pub size: Option<String>,
    pub funds: Option<String>,
    pub time_in_force: String,
}

// ---------------------------------------------------------------- laws on completion and routing

/// Only an exact zero remainder completes an order: an event is processed
/// exactly when it is a match or a cancel and its remaining size or its
/// remaining funds is the text `0`; an event whose remaining size and
/// remaining funds are each absent or another text is never processed.
pub proof fn law_only_a_zero_remainder_completes(o: OrderData)
    ensures
        o.remain_zero() <==> ((o.remain_size matches Some(x) && x@ == "0"@) || (o.remain_funds matches Some(x) && x@ == "0"@)),
        (o.terminal() && o.remain_zero()) <==> ((o.type_ == OrderEventType::Match || o.type_ == OrderEventType::Canceled)
            && ((o.remain_size matches Some(x) && x@ == "0"@) || (o.remain_funds matches Some(x) && x@ == "0"@))),
        (o.remain_size matches Some(x) ==> x@ != "0"@) && (o.remain_funds matches Some(x) ==> x@ != "0"@)
            ==> !(o.terminal() && o.remain_zero()),
{
}

/// A client order id names the bot's order in the first slot that holds it,
/// entry before take-profit before stop-loss: the entry slot wins whatever
/// the exit slots hold, and an id names an order exactly when some slot
/// holds it.
pub proof fn law_order_type_follows_the_slots(bot: Bot, c: Seq<char>)
    ensures
        (bot.entry_client_oid matches Some(e) && e@ == c) ==> bot.order_type_of(c) == Some(BotOrderType::Entry),
        bot.order_type_of(c) == Some(BotOrderType::TakeProfit) <==> (!(bot.entry_client_oid matches Some(e) && e@ == c)
            && (bot.exit_tp_client_oid matches Some(t) && t@ == c)),
        bot.order_type_of(c) == Some(BotOrderType::StopLoss) <==> (!(bot.entry_client_oid matches Some(e) && e@ == c)
            && !(bot.exit_tp_client_oid matches Some(t) && t@ == c) && (bot.exit_sl_client_oid matches Some(x) && x@ == c)),
        bot.order_type_of(c) is Some <==> ((bot.entry_client_oid matches Some(e) && e@ == c)
            || (bot.exit_tp_client_oid matches Some(t) && t@ == c) || (bot.exit_sl_client_oid matches Some(x) && x@ == c)),
{
}

} // verus!
