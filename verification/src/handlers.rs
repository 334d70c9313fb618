use vstd::prelude::*;
use crate::decimal::{Dec, decimal_from_str, min, min_spec};
use crate::error::BotError;
use crate::models::{AssetInfo, Currencies, OrderTopic, parse_decimal_field, parsed_as};

verus! {

// ---------------------------------------------------------------- websocket messages

/// The type of a websocket message, with the topic of a data message.
#[derive(Clone, Copy, Debug, PartialEq, Eq, Structural)]
pub enum MessageKind {
    Welcome,
    Ack,
    Message(OrderTopic),
    Error,
    Unknown,
}

/// Where a websocket message goes.
#[derive(Clone, Copy, Debug, PartialEq, Eq, Structural)]
pub enum MessageRoute {
    /// Store the message as an event (welcome and ack messages).
    SaveEvent,
    /// Store the balance event.
    SaveBalance,
    /// Handle the order event.
    TradeOrder,
    /// Handle the stop-order event.
    AdvancedOrder,
    /// Handle the margin position.
    Position,
}

/// `process_kcn_msg`: welcome and ack messages are stored as events, data
/// messages go to the handler of their topic; error messages, messages of
/// unknown type and data on an unknown topic fail.
pub fn route_message(kind: MessageKind) -> (r: Result<MessageRoute, BotError>)
    ensures
        match kind {
            MessageKind::Welcome | MessageKind::Ack => r == Ok::<MessageRoute, BotError>(MessageRoute::SaveEvent),
            MessageKind::Message(topic) => match topic {
                OrderTopic::Balance => r == Ok::<MessageRoute, BotError>(MessageRoute::SaveBalance),
                OrderTopic::TradeOrders => r == Ok::<MessageRoute, BotError>(MessageRoute::TradeOrder),
                OrderTopic::AdvancedOrders => r == Ok::<MessageRoute, BotError>(MessageRoute::AdvancedOrder),
                OrderTopic::Position => r == Ok::<MessageRoute, BotError>(MessageRoute::Position),
                OrderTopic::Unknown => r matches Err(BotError::UnknownTopic),
            },
            MessageKind::Error => r matches Err(BotError::WebSocketError),
            MessageKind::Unknown => r matches Err(BotError::UnknownMessageType),
        },
{
    match kind {
        MessageKind::Welcome | MessageKind::Ack => Ok(MessageRoute::SaveEvent),
        MessageKind::Message(topic) => match topic {
            OrderTopic::Balance => Ok(MessageRoute::SaveBalance),
            OrderTopic::TradeOrders => Ok(MessageRoute::TradeOrder),
            OrderTopic::AdvancedOrders => Ok(MessageRoute::AdvancedOrder),
            OrderTopic::Position => Ok(MessageRoute::Position),
            OrderTopic::Unknown => Err(BotError::UnknownTopic),
        },
        MessageKind::Error => Err(BotError::WebSocketError),
        MessageKind::Unknown => Err(BotError::UnknownMessageType),
    }
}

// ---------------------------------------------------------------- margin position

/// Every debt text from `0` up to `n` parses.
pub open spec fn debts_parse_below(debts: Seq<(String, String)>, n: int) -> bool {
    forall|j: int| 0 <= j < n ==> (#[trigger] decimal_from_str(debts[j].1@)) is Some
}

/// No asset occurs twice among the pairs, as in a map keyed by asset.
pub open spec fn distinct_assets<T>(pairs: Seq<(String, T)>) -> bool {
    forall|i: int, j: int| 0 <= i < j < pairs.len() ==> (#[trigger] pairs[i]).0@ != (#[trigger] pairs[j]).0@
}

/// `PositionData::debt_pairs`: the position's debts, one per asset, each
/// asset with its amount parsed, in the order given; the first amount that
/// does not parse fails.
pub fn parse_debt_pairs(debts: &Vec<(String, String)>) -> (r: Result<Vec<(String, Dec)>, BotError>)
    requires
        distinct_assets(debts@),
    ensures
        r matches Ok(v) ==> distinct_assets(v@),
        r is Ok <==> debts_parse_below(debts@, debts@.len() as int),
        r matches Ok(v) ==> {
            &&& v@.len() == debts@.len()
            &&& forall|i: int| 0 <= i < v@.len() ==> (#[trigger] v@[i]).0 == debts@[i].0
                && Some(v@[i].1) == decimal_from_str(debts@[i].1@) && v@[i].1.wf()
        },
        r matches Err(e) ==> exists|k: int| {
            &&& 0 <= k < debts@.len()
            &&& debts_parse_below(debts@, k)
            &&& #[trigger] decimal_from_str(debts@[k].1@) is None
            &&& e matches BotError::InvalidDecimal(t) && t@ == debts@[k].1@
        },
{
    let mut pairs: Vec<(String, Dec)> = Vec::new();
    let mut i: usize = 0;
    while i < debts.len()
        invariant
            i <= debts@.len(),
            pairs@.len() == i,
            debts_parse_below(debts@, i as int),
            forall|j: int| 0 <= j < i ==> (#[trigger] pairs@[j]).0 == debts@[j].0
                && Some(pairs@[j].1) == decimal_from_str(debts@[j].1@) && pairs@[j].1.wf(),
        decreases debts@.len() - i,
    {
        let amount = match parse_decimal_field(debts[i].1.as_str()) {
            Ok(d) => d,
            Err(e) => {
                assert(decimal_from_str(debts@[i as int].1@) is None);
                return Err(e);
            },
        };
        pairs.push((debts[i].0.clone(), amount));
        i = i + 1;
    }
    assert(distinct_assets(pairs@)) by {
        assert forall|a: int, b: int| 0 <= a < b < pairs@.len() implies (#[trigger] pairs@[a]).0@ != (#[trigger] pairs@[b]).0@ by {
            assert(debts@[a].0@ != debts@[b].0@);
        }
    }
    Ok(pairs)
}

/// How much of a debt is repaid: the smaller of the debt and what is
/// available, when both are above zero; nothing otherwise.
pub open spec fn repay_spec(liability: Dec, available: Dec) -> Option<Dec> {
    if liability.positive() && available.positive() {
        Some(min_spec(liability, available))
    } else {
        None
    }
}

/// The repayment for one debt of the position (`handle_position_event`):
/// nothing when the asset is not in the position (it is skipped), the
/// available amount must parse, then `repay_spec`.
pub fn repay_for_debt(liability: &Dec, asset: &Option<AssetInfo>) -> (r: Result<Option<Dec>, BotError>)
    requires
        liability.wf(),
    ensures
        match asset {
            None => r matches Ok(None),
            Some(a) => match decimal_from_str(a.available@) {
                None => r matches Err(BotError::InvalidDecimal(t)) && t@ == a.available@,
                Some(av) => r == Ok::<Option<Dec>, BotError>(repay_spec(*liability, av)),
            },
        },
        r matches Ok(Some(d)) ==> d.wf(),
{
    let asset = match asset {
        Some(a) => a,
        None => return Ok(None),
    };
    let available = match asset.available_decimal() {
        Ok(d) => d,
        Err(e) => return Err(e),
    };
    if liability.is_positive() && available.is_positive() {
        Ok(Some(min(liability, &available)))
    } else {
        Ok(None)
    }
}

/// A repayment is above zero and exceeds neither the debt nor what is available.
pub proof fn law_repayment_is_bounded(liability: Dec, available: Dec)
    ensures
        repay_spec(liability, available) matches Some(x) ==> {
            &&& x.positive()
            &&& !liability.less_than(x)
            &&& !available.less_than(x)
        },
        repay_spec(liability, available) is Some <==> (liability.positive() && available.positive()),
{
}

/// The precision of a debt's currency: the currency must be stored.
pub fn currency_precision(info: &Option<Currencies>) -> (r: Result<Dec, BotError>)
    ensures
        match info {
            None => r matches Err(BotError::CurrencyInfoNotFound),
            Some(c) => if c.precision < 0 {
                r matches Err(BotError::NegativePrecision(p)) && p == c.precision
            } else {
                parsed_as(r, c.precision_text())
            },
        },
        r matches Ok(d) ==> d.wf(),
{
    match info {
        None => Err(BotError::CurrencyInfoNotFound),
        Some(c) => c.precision_decimal(),
    }
}

} // verus!
