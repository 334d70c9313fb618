use vstd::prelude::*;
use crate::decimal::{
    Dec, checked_add, checked_div, checked_mul, checked_sub, decimal_add, decimal_div, decimal_from_str, decimal_mul, decimal_text,
    decimal_sub, decimal_text_4dp, display_fits, fits_display, common_scale, signed_at, worth, pow10, MAX_MANTISSA, cut_to, lemma_trunc_cuts,
    law_truncation_drops_digits, law_normalize_keeps_the_value, lemma_pow10_add, lemma_pow10_positive, decimal_to_string, decimal_to_string_4dp, normalize, normalize_spec, trunc_spec, trunc_with_scale,
};
use crate::error::BotError;
use crate::models::{
    Bot, BotOrderType, MakeStopOrderResData, OrderData, OrderSide, OrderType, StopOrderData, StopType,
    Symbol, parse_decimal_field,
};

verus! {

// ---------------------------------------------------------------- shared steps

/// `Err(ArithmeticOverflow)` where a checked decimal operation gave `None`.
pub open spec fn arithmetic(r: Option<Dec>) -> Result<Dec, BotError> {
    match r {
        Some(d) => Ok(d),
        None => Err(BotError::ArithmeticOverflow),
    }
}

/// `a * b`; `ArithmeticOverflow` where `rust_decimal` overflows.
pub fn product(a: &Dec, b: &Dec) -> (r: Result<Dec, BotError>)
    requires
        a.wf(),
        b.wf(),
    ensures
        r == arithmetic(decimal_mul(*a, *b)),
        r matches Ok(d) ==> d.wf(),
{
    match checked_mul(a, b) {
        Some(d) => Ok(d),
        None => Err(BotError::ArithmeticOverflow),
    }
}

/// What a stored or exchanged decimal text parses to: `Ok(None)` when the
/// text is absent, `InvalidDecimal` when it does not parse.
pub open spec fn optional_parsed_as(r: Result<Option<Dec>, BotError>, t: Option<String>) -> bool {
    match t {
        None => r == Ok::<Option<Dec>, BotError>(None),
        Some(s) => match decimal_from_str(s@) {
            Some(d) => r == Ok::<Option<Dec>, BotError>(Some(d)),
            None => r matches Err(BotError::InvalidDecimal(x)) && x@ == s@,
        },
    }
}

/// The bot's total matched value for a client order id, as stored
/// (`get_total_match_value_by_client_oid`): `None` when nothing was matched,
/// in which case processing stops without error.
pub fn matched_value(total: &Option<String>) -> (r: Result<Option<Dec>, BotError>)
    ensures
        optional_parsed_as(r, *total),
        r matches Ok(Some(d)) ==> d.wf(),
{
    match total {
        None => Ok(None),
        Some(t) => match parse_decimal_field(t.as_str()) {
            Ok(d) => Ok(Some(d)),
            Err(e) => Err(e),
        },
    }
}

/// The balance text written when a balance is truncated to four
/// fractional digits and stripped of trailing zeros.
pub open spec fn normalized_balance_text(d: Dec) -> Seq<char> {
    decimal_to_string(normalize_spec(trunc_spec(d, 4)))
}

/// The balance text written when a balance is truncated to four fractional digits.
pub open spec fn truncated_balance_text(d: Dec) -> Seq<char> {
    decimal_to_string(trunc_spec(d, 4))
}

/// The balance text written after an exit is the text of the balance cut
/// toward zero after four fractional digits: same sign, four fractional
/// digits wherever they fit, and the whole number of `10^-4` units in it.
pub proof fn law_truncated_balance_text_cuts_four_digits(d: Dec)
    requires
        d.wf(),
    ensures
        exists|t: Dec| {
            &&& #[trigger] decimal_to_string(t) == truncated_balance_text(d)
            &&& t.negative == d.negative
            &&& cut_to(d, t, 4)
            &&& (d.scale >= 4 || d.mantissa * pow10((4 - d.scale) as nat) <= MAX_MANTISSA) ==> t.scale == 4
        },
{
    lemma_trunc_cuts(d, 4);
    let t = trunc_spec(d, 4);
    assert(decimal_to_string(t) == truncated_balance_text(d));
}

/// The balance text written for a filled entry is the text of the matched
/// value cut toward zero after four fractional digits, without trailing
/// zeros in the fraction: a zero is written unsigned as `0`.
pub proof fn law_normalized_balance_text_cuts_four_digits(d: Dec)
    requires
        d.wf(),
    ensures
        exists|t: Dec| {
            &&& #[trigger] decimal_to_string(t) == normalized_balance_text(d)
            &&& cut_to(d, t, 4)
            &&& t.scale == 0 || t.mantissa % 10 != 0
            &&& t.mantissa != 0 ==> t.negative == d.negative
            &&& t.mantissa == 0 ==> !t.negative && t.scale == 0
        },
{
    lemma_trunc_cuts(d, 4);
    law_truncation_drops_digits(d, 4);
    let u = trunc_spec(d, 4);
    let n = normalize_spec(u);
    if u.mantissa != 0 {
        law_normalize_keeps_the_value(u);
        let a = (u.scale - n.scale) as nat;
        let b = (4 - u.scale) as nat;
        lemma_pow10_add(a, b);
        assert((4 - n.scale) as nat == a + b);
        vstd::arithmetic::mul::lemma_mul_is_associative(n.mantissa as int, pow10(a), pow10(b));
        assert(n.mantissa * pow10((4 - n.scale) as nat) == u.mantissa * pow10(b));
        assert(cut_to(d, n, 4));
    } else {
        lemma_pow10_positive(d.scale as nat);
        lemma_pow10_positive(4);
        let pd = pow10(d.scale as nat);
        let pu = pow10((4 - u.scale) as nat);
        let p4 = pow10(4);
        assert(n.mantissa == 0 && n.scale == 0);
        assert(0 * p4 * pd <= d.mantissa * p4 && d.mantissa * p4 < (0 * p4 + 1) * pd) by (nonlinear_arith)
            requires
                d.mantissa * p4 < (0 * pu + 1) * pd,
                pd >= 1,
                d.mantissa >= 0,
                p4 >= 1,
        ;
        assert(cut_to(d, n, 4));
    }
    assert(decimal_to_string(n) == normalized_balance_text(d));
}

// ---------------------------------------------------------------- routing

/// The client order id of a completed order; an order without one cannot
/// be tied to a bot.
pub fn order_client_oid(order: &OrderData) -> (r: Result<String, BotError>)
    ensures
        match order.client_oid {
            Some(c) => r matches Ok(x) && x@ == c@,
            None => r matches Err(BotError::ClientOidMissing),
        },
{
    match order.client_oid.as_ref() {
        Some(c) => Ok(c.clone()),
        None => Err(BotError::ClientOidMissing),
    }
}

/// Which of the bot's orders completed (`trade_order_event`): the bot found
/// by the client order id must exist and hold that id in one of its slots.
pub fn route_bot_order(bot: &Option<Bot>, client_oid: &str) -> (r: Result<BotOrderType, BotError>)
    ensures
        match bot {
            None => r matches Err(BotError::BotNotFound),
            Some(b) => match b.order_type_of(client_oid@) {
                Some(t) => r == Ok::<BotOrderType, BotError>(t),
                None => r matches Err(BotError::ClientOidNotInBot),
            },
        },
{
    match bot {
        None => Err(BotError::BotNotFound),
        Some(b) => match b.get_order_type(client_oid) {
            Some(t) => Ok(t),
            None => Err(BotError::ClientOidNotInBot),
        },
    }
}

// ---------------------------------------------------------------- entry fill

/// What the bot knows of its filled entry order.
#[derive(Debug, Clone, Copy)]
pub struct EntryFill {
    pub price_increment: Dec,
    pub filled_size: Dec,
}

/// The first step on a filled entry order (`process_bot_by_entry_client_oid`):
/// the symbol's price increment and the filled size.
pub fn entry_fill(order: &OrderData, symbol_info: &Option<Symbol>) -> (r: Result<EntryFill, BotError>)
    ensures
        match symbol_info {
            None => r matches Err(BotError::SymbolInfoNotFound),
            Some(s) => match decimal_from_str(s.price_increment@) {
                None => r matches Err(BotError::InvalidDecimal(t)) && t@ == s.price_increment@,
                Some(pi) => match order.filled_size {
                    None => r matches Err(BotError::MissingValue),
                    Some(f) => match decimal_from_str(f@) {
                        None => r matches Err(BotError::InvalidDecimal(t)) && t@ == f@,
                        Some(fs) => r matches Ok(e) && e.price_increment == pi && e.filled_size == fs,
                    },
                },
            },
        },
        r matches Ok(e) ==> e.price_increment.wf() && e.filled_size.wf(),
{
    let symbol_info = match symbol_info {
        Some(s) => s,
        None => return Err(BotError::SymbolInfoNotFound),
    };
    let price_increment = match symbol_info.price_increment_decimal() {
        Ok(d) => d,
        Err(e) => return Err(e),
    };
    let filled_size = match order.filled_size_decimal() {
        Ok(d) => d,
        Err(e) => return Err(e),
    };
    Ok(EntryFill { price_increment, filled_size })
}

/// The entry's new balance and the text written for it.
#[derive(Debug)]
pub struct EntryBalance {
    pub new_balance: Dec,
    pub balance_text: String,
}

/// The balance of a filled entry: the total matched value, written
/// truncated to four fractional digits and normalized. `Ok(None)` when
/// nothing was matched (processing stops without error).
pub fn entry_balance(total: &Option<String>) -> (r: Result<Option<EntryBalance>, BotError>)
    ensures
        match total {
            None => r matches Ok(None),
            Some(t) => match decimal_from_str(t@) {
                None => r matches Err(BotError::InvalidDecimal(x)) && x@ == t@,
                Some(d) => r matches Ok(Some(b)) && b.new_balance == d
                    && b.balance_text@ == normalized_balance_text(d),
            },
        },
        r matches Ok(Some(b)) ==> b.new_balance.wf(),
        r matches Ok(Some(b)) ==> exists|t: Dec| {
            &&& #[trigger] decimal_to_string(t) == b.balance_text@
            &&& cut_to(b.new_balance, t, 4)
            &&& t.scale == 0 || t.mantissa % 10 != 0
        },
{
    let new_balance = match matched_value(total) {
        Ok(Some(d)) => d,
        Ok(None) => return Ok(None),
        Err(e) => return Err(e),
    };
    let truncated = trunc_with_scale(&new_balance, 4);
    let normalized = normalize(&truncated);
    let balance_text = decimal_text(&normalized);
    proof {
        law_normalized_balance_text_cuts_four_digits(new_balance);
    }
    Ok(Some(EntryBalance { new_balance, balance_text }))
}

/// The average price of a filled entry: its balance over the filled size.
/// `ArithmeticOverflow` where `rust_decimal` overflows or the filled size is zero.
pub fn entry_match_price(new_balance: &Dec, filled_size: &Dec) -> (r: Result<Dec, BotError>)
    requires
        new_balance.wf(),
        filled_size.wf(),
    ensures
        r == arithmetic(decimal_div(*new_balance, *filled_size)),
        filled_size.mantissa == 0 ==> r matches Err(BotError::ArithmeticOverflow),
        r matches Ok(d) ==> d.wf(),
{
    match checked_div(new_balance, filled_size) {
        Some(d) => Ok(d),
        None => Err(BotError::ArithmeticOverflow),
    }
}

/// The increment that the exit orders' amount is formatted to: the base
/// increment for a buy entry (exits sell a size), the quote increment for a
/// sell entry (exits buy with funds). `Ok(None)` for an unknown side: no
/// exit orders are placed.
pub fn exit_amount_increment(side: OrderSide, symbol_info: &Symbol) -> (r: Result<Option<Dec>, BotError>)
    ensures
        match side {
            OrderSide::Buy => match decimal_from_str(symbol_info.base_increment@) {
                Some(d) => r == Ok::<Option<Dec>, BotError>(Some(d)),
                None => r matches Err(BotError::InvalidDecimal(t)) && t@ == symbol_info.base_increment@,
            },
            OrderSide::Sell => match decimal_from_str(symbol_info.quote_increment@) {
                Some(d) => r == Ok::<Option<Dec>, BotError>(Some(d)),
                None => r matches Err(BotError::InvalidDecimal(t)) && t@ == symbol_info.quote_increment@,
            },
            OrderSide::Unknown => r == Ok::<Option<Dec>, BotError>(None),
        },
        r matches Ok(Some(d)) ==> d.wf(),
{
    match side {
        OrderSide::Buy => match symbol_info.base_increment_decimal() {
            Ok(d) => Ok(Some(d)),
            Err(e) => Err(e),
        },
        OrderSide::Sell => match symbol_info.quote_increment_decimal() {
            Ok(d) => Ok(Some(d)),
            Err(e) => Err(e),
        },
        OrderSide::Unknown => Ok(None),
    }
}

} // verus!

verus! {

// ---------------------------------------------------------------- exit orders

/// The two exit orders of a bot's position.
#[derive(Clone, Copy, Debug, PartialEq, Eq, Structural)]
pub enum ExitLeg {
    TakeProfit,
    StopLoss,
}

/// The side of the exit orders of an entry: they close the position, so
/// they trade against the entry.
pub open spec fn exit_side(entry: OrderSide) -> OrderSide {
    match entry {
        OrderSide::Buy => OrderSide::Sell,
        OrderSide::Sell => OrderSide::Buy,
        OrderSide::Unknown => OrderSide::Unknown,
    }
}

/// The stop type of an exit order: after a buy the take-profit triggers on
/// a rise (`Entry`) and the stop-loss on a fall (`Loss`); after a sell the
/// other way round.
pub open spec fn exit_stop(entry: OrderSide, leg: ExitLeg) -> StopType {
    match entry {
        OrderSide::Buy => match leg {
            ExitLeg::TakeProfit => StopType::Entry,
            ExitLeg::StopLoss => StopType::Loss,
        },
        OrderSide::Sell => match leg {
            ExitLeg::TakeProfit => StopType::Loss,
            ExitLeg::StopLoss => StopType::Entry,
        },
        OrderSide::Unknown => StopType::Unknown,
    }
}

/// The stop order that exits a filled entry (`process_buy_entry`,
/// `process_sell_entry`): a market order against the entry, borrowing
/// but not repaying, good till cancelled; after a buy it sells a size,
/// after a sell it buys with funds. `None` for an unknown entry side.
pub fn exit_stop_order(
    entry_side: OrderSide,
    leg: ExitLeg,
    client_oid: String,
    symbol: String,
    stop_price: String,
    amount: String,
) -> (r: Option<StopOrderData>)
    ensures
        r is None <==> entry_side == OrderSide::Unknown,
        r matches Some(o) ==> {
            &&& o.client_oid == client_oid
            &&& o.side == exit_side(entry_side)
            &&& o.symbol == symbol
            &&& o.order_type == OrderType::Market
            &&& o.stop == exit_stop(entry_side, leg)
            &&& o.stop_price == stop_price
            &&& !o.is_isolated
            &&& o.auto_borrow
            &&& !o.auto_repay
            &&& o.time_in_force@ == "GTC"@
            &&& entry_side == OrderSide::Buy ==> o.size == Some(amount) && o.funds is None
            &&& entry_side == OrderSide::Sell ==> o.funds == Some(amount) && o.size is None
        },
{
    let (side, stop, size, funds) = match entry_side {
        OrderSide::Buy => (
            OrderSide::Sell,
            match leg {
                ExitLeg::TakeProfit => StopType::Entry,
                ExitLeg::StopLoss => StopType::Loss,
            },
            Some(amount),
            None,
        ),
        OrderSide::Sell => (
            OrderSide::Buy,
            match leg {
                ExitLeg::TakeProfit => StopType::Loss,
                ExitLeg::StopLoss => StopType::Entry,
            },
            None,
            Some(amount),
        ),
        OrderSide::Unknown => return None,
    };
    Some(StopOrderData {
        client_oid,
        side,
        symbol,
        order_type: OrderType::Market,
        stop,
        stop_price,
        is_isolated: false,
        auto_borrow: true,
        auto_repay: false,
        size,
        funds,
        time_in_force: String::from_str("GTC"),
    })
}

/// Exit orders close the position: for a known entry side they trade
/// against it, and its take-profit and stop-loss trigger in opposite
/// directions.
pub proof fn law_exit_orders_close_the_position(entry: OrderSide)
    requires
        entry != OrderSide::Unknown,
    ensures
        exit_side(entry) != entry,
        exit_side(entry) != OrderSide::Unknown,
        exit_stop(entry, ExitLeg::TakeProfit) != exit_stop(entry, ExitLeg::StopLoss),
        exit_stop(entry, ExitLeg::TakeProfit) != StopType::Unknown,
        exit_stop(entry, ExitLeg::StopLoss) != StopType::Unknown,
{
}

// ---------------------------------------------------------------- placed exit orders

/// A step that follows the placement of the two exit orders.
#[derive(Debug)]
pub enum StopStep {
    /// Store the take-profit's exchange order id for its client order id.
    RecordTpOrderId { order_id: String, client_oid: String },
    /// Store the stop-loss's exchange order id for its client order id.
    RecordSlOrderId { order_id: String, client_oid: String },
    /// Cancel a placed stop order at the exchange by its client order id.
    CancelAtExchange { client_oid: String },
    /// Clear the bot's take-profit slot holding this client order id.
    ClearExitTp { client_oid: String },
    /// Clear the bot's stop-loss slot holding this client order id.
    ClearExitSl { client_oid: String },
}

/// A `StopStep` with its texts as character sequences.
pub enum StopStepView {
    RecordTpOrderId { order_id: Seq<char>, client_oid: Seq<char> },
    RecordSlOrderId { order_id: Seq<char>, client_oid: Seq<char> },
    CancelAtExchange { client_oid: Seq<char> },
    ClearExitTp { client_oid: Seq<char> },
    ClearExitSl { client_oid: Seq<char> },
}

impl View for StopStep {
    type V = StopStepView;

    open spec fn view(&self) -> StopStepView {
        match self {
            StopStep::RecordTpOrderId { order_id, client_oid } => StopStepView::RecordTpOrderId {
                order_id: order_id@,
                client_oid: client_oid@,
            },
            StopStep::RecordSlOrderId { order_id, client_oid } => StopStepView::RecordSlOrderId {
                order_id: order_id@,
                client_oid: client_oid@,
            },
            StopStep::CancelAtExchange { client_oid } => StopStepView::CancelAtExchange {
                client_oid: client_oid@,
            },
            StopStep::ClearExitTp { client_oid } => StopStepView::ClearExitTp { client_oid: client_oid@ },
            StopStep::ClearExitSl { client_oid } => StopStepView::ClearExitSl { client_oid: client_oid@ },
        }
    }
}

/// What follows the placement of the two exit orders, and how it ends.
#[derive(Debug)]
pub struct StopResultsPlan {
    pub steps: Vec<StopStep>,
    pub outcome: Result<(), BotError>,
}

/// The steps after placing the take-profit (`tp`) and stop-loss (`sl`)
/// orders, each `None` when its placement failed: both placed, record both
/// order ids; one placed, cancel it and clear its slot, and fail; none
/// placed, clear both slots.
pub open spec fn stop_results_steps(
    tp: Option<MakeStopOrderResData>,
    sl: Option<MakeStopOrderResData>,
    exit_tp_client_oid: Seq<char>,
    exit_sl_client_oid: Seq<char>,
) -> Seq<StopStepView> {
    match tp {
        Some(t) => match sl {
            Some(s) => seq![
                StopStepView::RecordTpOrderId { order_id: t.order_id@, client_oid: t.client_oid@ },
                StopStepView::RecordSlOrderId { order_id: s.order_id@, client_oid: s.client_oid@ },
            ],
            None => seq![
                StopStepView::CancelAtExchange { client_oid: t.client_oid@ },
                StopStepView::ClearExitTp { client_oid: exit_tp_client_oid },
            ],
        },
        None => match sl {
            Some(s) => seq![
                StopStepView::CancelAtExchange { client_oid: s.client_oid@ },
                StopStepView::ClearExitSl { client_oid: exit_sl_client_oid },
            ],
            None => seq![
                StopStepView::ClearExitSl { client_oid: exit_sl_client_oid },
                StopStepView::ClearExitTp { client_oid: exit_tp_client_oid },
            ],
        },
    }
}

/// How the steps after placing the exit orders end: with an error when
/// exactly one of them was placed.
pub open spec fn stop_results_outcome(
    tp: Option<MakeStopOrderResData>,
    sl: Option<MakeStopOrderResData>,
) -> Result<(), BotError> {
    match tp {
        Some(_) => match sl {
            Some(_) => Ok(()),
            None => Err(BotError::StopLossPlacementFailed),
        },
        None => match sl {
            Some(_) => Err(BotError::TakeProfitPlacementFailed),
            None => Ok(()),
        },
    }
}

/// `handle_stop_order_results`: what to do once both exit orders were sent.
pub fn stop_results_plan(
    tp: &Option<MakeStopOrderResData>,
    sl: &Option<MakeStopOrderResData>,
    exit_tp_client_oid: &str,
    exit_sl_client_oid: &str,
) -> (r: StopResultsPlan)
    ensures
        r.steps@.map_values(|s: StopStep| s@) == stop_results_steps(
            *tp,
            *sl,
            exit_tp_client_oid@,
            exit_sl_client_oid@,
        ),
        r.outcome == stop_results_outcome(*tp, *sl),
{
    let mut steps: Vec<StopStep> = Vec::new();
    let outcome = match (tp, sl) {
        (Some(t), Some(s)) => {
            steps.push(StopStep::RecordTpOrderId { order_id: t.order_id.clone(), client_oid: t.client_oid.clone() });
            steps.push(StopStep::RecordSlOrderId { order_id: s.order_id.clone(), client_oid: s.client_oid.clone() });
            Ok(())
        },
        (Some(t), None) => {
            steps.push(StopStep::CancelAtExchange { client_oid: t.client_oid.clone() });
            steps.push(StopStep::ClearExitTp { client_oid: exit_tp_client_oid.to_owned() });
            Err(BotError::StopLossPlacementFailed)
        },
        (None, Some(s)) => {
            steps.push(StopStep::CancelAtExchange { client_oid: s.client_oid.clone() });
            steps.push(StopStep::ClearExitSl { client_oid: exit_sl_client_oid.to_owned() });
            Err(BotError::TakeProfitPlacementFailed)
        },
        (None, None) => {
            steps.push(StopStep::ClearExitSl { client_oid: exit_sl_client_oid.to_owned() });
            steps.push(StopStep::ClearExitTp { client_oid: exit_tp_client_oid.to_owned() });
            Ok(())
        },
    };
    assert(steps@.map_values(|s: StopStep| s@) =~= stop_results_steps(
        *tp,
        *sl,
        exit_tp_client_oid@,
        exit_sl_client_oid@,
    ));
    StopResultsPlan { steps, outcome }
}

/// A placed exit order stays live at the exchange: it was placed and no
/// step cancels it.
pub open spec fn stays_live(placed: Option<MakeStopOrderResData>, steps: Seq<StopStepView>) -> bool {
    placed matches Some(p) && !steps.contains(StopStepView::CancelAtExchange { client_oid: p.client_oid@ })
}

/// The steps store the take-profit's order id.
pub open spec fn records_tp(steps: Seq<StopStepView>) -> bool {
    exists|i: int| 0 <= i < steps.len() && steps[i] is RecordTpOrderId
}

/// The steps store the stop-loss's order id.
pub open spec fn records_sl(steps: Seq<StopStepView>) -> bool {
    exists|i: int| 0 <= i < steps.len() && steps[i] is RecordSlOrderId
}

/// Exit orders come in pairs: after the steps, the take-profit stays live
/// exactly when the stop-loss does, both order ids are recorded or
/// neither is, and the steps fail exactly when only one was placed.
pub proof fn law_exit_orders_stay_paired(
    tp: Option<MakeStopOrderResData>,
    sl: Option<MakeStopOrderResData>,
    exit_tp_client_oid: Seq<char>,
    exit_sl_client_oid: Seq<char>,
)
    ensures
        ({
            let steps = stop_results_steps(tp, sl, exit_tp_client_oid, exit_sl_client_oid);
            &&& stays_live(tp, steps) == stays_live(sl, steps)
            &&& records_tp(steps) == records_sl(steps)
            &&& records_tp(steps) == (tp is Some && sl is Some)
            &&& stop_results_outcome(tp, sl) is Ok <==> (tp is Some == sl is Some)
        }),
{
    let steps = stop_results_steps(tp, sl, exit_tp_client_oid, exit_sl_client_oid);
    match tp {
        Some(t) => match sl {
            Some(s) => {
                assert(steps[0] is RecordTpOrderId);
                assert(steps[1] is RecordSlOrderId);
                assert(!steps.contains(StopStepView::CancelAtExchange { client_oid: t.client_oid@ })) by {
                    assert(forall|i: int| 0 <= i < steps.len() ==> !(steps[i] is CancelAtExchange));
                }
                assert(!steps.contains(StopStepView::CancelAtExchange { client_oid: s.client_oid@ })) by {
                    assert(forall|i: int| 0 <= i < steps.len() ==> !(steps[i] is CancelAtExchange));
                }
            },
            None => {
                assert(steps[0] == StopStepView::CancelAtExchange { client_oid: t.client_oid@ });
                assert(forall|i: int| 0 <= i < steps.len() ==> !(steps[i] is RecordTpOrderId) && !(steps[i] is RecordSlOrderId));
            },
        },
        None => match sl {
            Some(s) => {
                assert(steps[0] == StopStepView::CancelAtExchange { client_oid: s.client_oid@ });
                assert(forall|i: int| 0 <= i < steps.len() ==> !(steps[i] is RecordTpOrderId) && !(steps[i] is RecordSlOrderId));
            },
            None => {
                assert(forall|i: int| 0 <= i < steps.len() ==> !(steps[i] is RecordTpOrderId) && !(steps[i] is RecordSlOrderId));
            },
        },
    }
}

} // verus!

verus! {

// ---------------------------------------------------------------- exit fill

/// The steps when an exit order fills, before the balance is settled: clear
/// the filled exit's own slot, then, when the other exit is set, clear its
/// slot and cancel it at the exchange.
pub open spec fn exit_fill_steps_spec(leg: ExitLeg, bot: Bot, client_oid: Seq<char>) -> Seq<StopStepView> {
    match leg {
        ExitLeg::TakeProfit => seq![StopStepView::ClearExitTp { client_oid }] + match bot.exit_sl_client_oid {
            Some(p) => seq![StopStepView::ClearExitSl { client_oid: p@ }, StopStepView::CancelAtExchange { client_oid: p@ }],
            None => Seq::<StopStepView>::empty(),
        },
        ExitLeg::StopLoss => seq![StopStepView::ClearExitSl { client_oid }] + match bot.exit_tp_client_oid {
            Some(p) => seq![StopStepView::ClearExitTp { client_oid: p@ }, StopStepView::CancelAtExchange { client_oid: p@ }],
            None => Seq::<StopStepView>::empty(),
        },
    }
}

/// The steps of `process_bot_by_exit_tp_client_oid` and
/// `process_bot_by_exit_sl_client_oid` before the balance is settled.
pub fn exit_fill_steps(leg: ExitLeg, bot: &Bot, client_oid: &str) -> (r: Vec<StopStep>)
    ensures
        r@.map_values(|s: StopStep| s@) == exit_fill_steps_spec(leg, *bot, client_oid@),
{
    let mut steps: Vec<StopStep> = Vec::new();
    match leg {
        ExitLeg::TakeProfit => {
            steps.push(StopStep::ClearExitTp { client_oid: client_oid.to_owned() });
            if let Some(p) = bot.exit_sl_client_oid.as_ref() {
                steps.push(StopStep::ClearExitSl { client_oid: p.clone() });
                steps.push(StopStep::CancelAtExchange { client_oid: p.clone() });
            }
        },
        ExitLeg::StopLoss => {
            steps.push(StopStep::ClearExitSl { client_oid: client_oid.to_owned() });
            if let Some(p) = bot.exit_tp_client_oid.as_ref() {
                steps.push(StopStep::ClearExitTp { client_oid: p.clone() });
                steps.push(StopStep::CancelAtExchange { client_oid: p.clone() });
            }
        },
    }
    assert(steps@.map_values(|s: StopStep| s@) =~= exit_fill_steps_spec(leg, *bot, client_oid@));
    steps
}

/// When one exit order fills, the other does not stay live: its slot is
/// cleared and it is cancelled at the exchange, and the filled exit's own
/// slot is cleared first.
pub proof fn law_filled_exit_cancels_its_peer(leg: ExitLeg, bot: Bot, client_oid: Seq<char>)
    ensures
        ({
            let steps = exit_fill_steps_spec(leg, bot, client_oid);
            &&& steps[0] == (match leg {
                ExitLeg::TakeProfit => StopStepView::ClearExitTp { client_oid },
                ExitLeg::StopLoss => StopStepView::ClearExitSl { client_oid },
            })
            &&& match leg {
                ExitLeg::TakeProfit => match bot.exit_sl_client_oid {
                    Some(p) => steps.contains(StopStepView::ClearExitSl { client_oid: p@ })
                        && steps.contains(StopStepView::CancelAtExchange { client_oid: p@ }),
                    None => steps.len() == 1,
                },
                ExitLeg::StopLoss => match bot.exit_tp_client_oid {
                    Some(p) => steps.contains(StopStepView::ClearExitTp { client_oid: p@ })
                        && steps.contains(StopStepView::CancelAtExchange { client_oid: p@ }),
                    None => steps.len() == 1,
                },
            }
        }),
{
    let steps = exit_fill_steps_spec(leg, bot, client_oid);
    match leg {
        ExitLeg::TakeProfit => match bot.exit_sl_client_oid {
            Some(p) => {
                assert(steps[1] == StopStepView::ClearExitSl { client_oid: p@ });
                assert(steps[2] == StopStepView::CancelAtExchange { client_oid: p@ });
            },
            None => {},
        },
        ExitLeg::StopLoss => match bot.exit_tp_client_oid {
            Some(p) => {
                assert(steps[1] == StopStepView::ClearExitTp { client_oid: p@ });
                assert(steps[2] == StopStepView::CancelAtExchange { client_oid: p@ });
            },
            None => {},
        },
    }
}

/// How the new balance is written.
#[derive(Clone, Copy, Debug, PartialEq, Eq, Structural)]
pub enum BalanceWrite {
    /// `update_balance_by_entry_client_oid` with the filled order's client order id.
    ByEntryClientOid,
    /// `update_balance_and_clear_symbol_by_exit_tp`.
    AndClearSymbolByExitTp,
    /// `update_balance_and_clear_symbol_by_exit_sl`.
    AndClearSymbolByExitSl,
}

/// The bot's balance after one of its exit orders filled.
#[derive(Debug)]
pub struct Settlement {
    pub new_balance: Dec,
    pub balance_text: String,
    pub write: BalanceWrite,
}

/// The balance after closing a short position (a buy exit): the old
/// balance doubled, less what the exit cost; `None` on overflow.
pub open spec fn short_exit_balance(old: Dec, returned: Dec) -> Option<Dec> {
    match decimal_add(old, old) {
        Some(doubled) => decimal_sub(doubled, returned),
        None => None,
    }
}

/// The exact balance after closing a short, `2 * old - returned`, as a
/// signed magnitude at the larger of the two scales.
pub open spec fn short_exit_value(old: Dec, returned: Dec) -> int {
    2 * signed_at(old, common_scale(old, returned)) - signed_at(returned, common_scale(old, returned))
}

/// The doubled balance and the exact result both fit 96 bits, so no
/// rounding or overflow comes into the short's settlement.
pub open spec fn short_exit_fits(old: Dec, returned: Dec) -> bool {
    &&& -(MAX_MANTISSA as int) <= 2 * old.signed() <= MAX_MANTISSA
    &&& -(MAX_MANTISSA as int) <= short_exit_value(old, returned) <= MAX_MANTISSA
}

/// The settlement of a filled exit order (`process_bot_by_exit_tp_client_oid`,
/// `process_bot_by_exit_sl_client_oid`). `returned` is the exit's matched value.
/// A sell exit (a long closed) leaves the matched value as balance; a buy
/// exit (a short closed) leaves twice the old balance less the matched value.
/// A take-profit writes the balance truncated to four digits and clears the
/// symbol; a stop-loss does so after a sell, and after a buy writes the
/// balance with four fractional digits by the filled client order id (`ArithmeticOverflow` where that text would not fit `Decimal`'s
/// buffer, on which the formatting panics). An unknown side fails for a
/// take-profit and does nothing for a stop-loss.
pub fn exit_settlement(leg: ExitLeg, side: OrderSide, bot: &Bot, returned: &Dec) -> (r: Result<Option<Settlement>, BotError>)
    requires
        returned.wf(),
    ensures
        match side {
            OrderSide::Buy => match decimal_from_str(bot.balance@) {
                None => r matches Err(BotError::InvalidDecimal(t)) && t@ == bot.balance@,
                Some(old) => match short_exit_balance(old, *returned) {
                    None => r matches Err(BotError::ArithmeticOverflow),
                    Some(nb) => match leg {
                        ExitLeg::TakeProfit => r matches Ok(Some(s)) && s.new_balance == nb
                            && s.balance_text@ == truncated_balance_text(nb)
                            && s.write == BalanceWrite::AndClearSymbolByExitTp,
                        ExitLeg::StopLoss => if display_fits(nb, 4) {
                            r matches Ok(Some(s)) && s.new_balance == nb
                                && s.balance_text@ == decimal_to_string_4dp(nb)
                                && s.write == BalanceWrite::ByEntryClientOid
                        } else {
                            r matches Err(BotError::ArithmeticOverflow)
                        },
                    },
                },
            },
            OrderSide::Sell => r matches Ok(Some(s)) && s.new_balance == *returned
                && s.balance_text@ == truncated_balance_text(*returned) && s.write == (match leg {
                    ExitLeg::TakeProfit => BalanceWrite::AndClearSymbolByExitTp,
                    ExitLeg::StopLoss => BalanceWrite::AndClearSymbolByExitSl,
                }),
            OrderSide::Unknown => match leg {
                ExitLeg::TakeProfit => r matches Err(BotError::UnknownOrderSide),
                ExitLeg::StopLoss => r matches Ok(None),
            },
        },
        r matches Ok(Some(s)) ==> s.new_balance.wf(),
        side == OrderSide::Buy ==> match decimal_from_str(bot.balance@) {
            Some(old) => short_exit_fits(old, *returned) ==> {
                &&& r matches Ok(Some(s)) ==> worth(s.new_balance, short_exit_value(old, *returned), common_scale(old, *returned))
                &&& leg == ExitLeg::TakeProfit ==> r matches Ok(Some(_))
            },
            None => true,
        },
        side == OrderSide::Sell ==> (r matches Ok(Some(s)) && s.new_balance == *returned),
        r matches Ok(Some(s)) ==> (s.write != BalanceWrite::ByEntryClientOid ==> exists|t: Dec| {
            &&& #[trigger] decimal_to_string(t) == s.balance_text@
            &&& t.negative == s.new_balance.negative
            &&& cut_to(s.new_balance, t, 4)
        }),
{
    match side {
        OrderSide::Buy => {
            let old = match bot.balance_decimal() {
                Ok(d) => d,
                Err(e) => return Err(e),
            };
            let doubled = match checked_add(&old, &old) {
                Some(d) => d,
                None => return Err(BotError::ArithmeticOverflow),
            };
            proof {
                let m = common_scale(old, *returned);
                if short_exit_fits(old, *returned) {
                    assert(doubled.signed() == 2 * old.signed() && doubled.scale == old.scale);
                    assert(common_scale(doubled, *returned) == m);
                    assert(signed_at(doubled, m) == 2 * signed_at(old, m)) by (nonlinear_arith)
                        requires
                            doubled.signed() == 2 * old.signed(),
                            signed_at(doubled, m) == doubled.signed() * pow10((m - doubled.scale) as nat),
                            signed_at(old, m) == old.signed() * pow10((m - old.scale) as nat),
                            doubled.scale == old.scale,
                    ;
                }
            }
            let new_balance = match checked_sub(&doubled, returned) {
                Some(d) => d,
                None => return Err(BotError::ArithmeticOverflow),
            };
            match leg {
                ExitLeg::TakeProfit => {
                    let truncated = trunc_with_scale(&new_balance, 4);
                    proof {
                        law_truncated_balance_text_cuts_four_digits(new_balance);
                    }
                    let balance_text = decimal_text(&truncated);
                    Ok(Some(Settlement { new_balance, balance_text, write: BalanceWrite::AndClearSymbolByExitTp }))
                },
                ExitLeg::StopLoss => {
                    if !fits_display(&new_balance, 4) {
                        return Err(BotError::ArithmeticOverflow);
                    }
                    let balance_text = decimal_text_4dp(&new_balance);
                    Ok(Some(Settlement { new_balance, balance_text, write: BalanceWrite::ByEntryClientOid }))
                },
            }
        },
        OrderSide::Sell => {
            let truncated = trunc_with_scale(returned, 4);
            proof {
                law_truncated_balance_text_cuts_four_digits(*returned);
            }
            let balance_text = decimal_text(&truncated);
            let write = match leg {
                ExitLeg::TakeProfit => BalanceWrite::AndClearSymbolByExitTp,
                ExitLeg::StopLoss => BalanceWrite::AndClearSymbolByExitSl,
            };
            Ok(Some(Settlement { new_balance: *returned, balance_text, write }))
        },
        OrderSide::Unknown => match leg {
            ExitLeg::TakeProfit => Err(BotError::UnknownOrderSide),
            ExitLeg::StopLoss => Ok(None),
        },
    }
}

} // verus!

verus! {

/// The trigger price and the amount of one exit order of a filled entry
/// (`process_buy_entry`, `process_sell_entry`): the trigger is the entry's
/// average price times the leg's percentage; after a buy the exit sells
/// the filled size, after a sell it buys with funds worth the trigger
/// times the filled size. `Ok(None)` for an unknown side (no exits).
pub fn exit_leg_amounts(entry_side: OrderSide, match_price: &Dec, filled_size: &Dec, percent: &Dec) -> (r: Result<Option<(Dec, Dec)>, BotError>)
    requires
        match_price.wf(),
        filled_size.wf(),
        percent.wf(),
    ensures
        entry_side == OrderSide::Unknown ==> r matches Ok(None),
        entry_side != OrderSide::Unknown ==> match decimal_mul(*match_price, *percent) {
            None => r matches Err(BotError::ArithmeticOverflow),
            Some(trigger) => if entry_side == OrderSide::Buy {
                r == Ok::<Option<(Dec, Dec)>, BotError>(Some((trigger, *filled_size)))
            } else {
                match decimal_mul(trigger, *filled_size) {
                    None => r matches Err(BotError::ArithmeticOverflow),
                    Some(funds) => r == Ok::<Option<(Dec, Dec)>, BotError>(Some((trigger, funds))),
                }
            },
        },
        r matches Ok(Some(p)) ==> p.0.wf() && p.1.wf(),
{
    if entry_side == OrderSide::Unknown {
        return Ok(None);
    }
    let trigger = match product(match_price, percent) {
        Ok(d) => d,
        Err(e) => return Err(e),
    };
    if entry_side == OrderSide::Buy {
        Ok(Some((trigger, *filled_size)))
    } else {
        match product(&trigger, filled_size) {
            Ok(funds) => Ok(Some((trigger, funds))),
            Err(e) => Err(e),
        }
    }
}

} // verus!

verus! {

/// The balance written for a filled entry has at most four fractional
/// digits and no trailing zero.
pub proof fn law_entry_balance_has_four_digits_at_most(d: Dec)
    requires
        d.wf(),
    ensures
        normalize_spec(trunc_spec(d, 4)).scale <= 4,
        normalize_spec(trunc_spec(d, 4)).scale == 0
            || normalize_spec(trunc_spec(d, 4)).mantissa % 10 != 0,
{
    crate::decimal::law_truncation_drops_digits(d, 4);
    let t = trunc_spec(d, 4);
    if t.mantissa != 0 {
        crate::decimal::law_normalize_keeps_the_value(t);
    }
}

} // verus!
