use vstd::prelude::*;
use crate::error::BotError;
use crate::models::{
    AdvancedOrders, ApiV3HfMarginStopOrdersResData, Bot, OrderAmount, OrderSide, OrderType, StopType,
};

verus! {

// ---------------------------------------------------------------- failed stop orders

/// How the bot owning a failed stop order is looked up.
#[derive(Debug)]
pub enum BotLookup {
    /// `get_bot_by_exit_sl_order_id` with the stop order's id.
    ByExitSlOrderId(String),
    /// `get_bot_by_exit_tp_order_id` with the stop order's id.
    ByExitTpOrderId(String),
}

/// The first step on a stop-order event (`handle_advanced_orders`):
/// nothing to do unless the exchange reports an error; then the bot is
/// looked up by the order's id, in the stop-loss slot for a loss stop and
/// in the take-profit slot for an entry stop.
pub fn advanced_order_lookup(order: &AdvancedOrders) -> (r: Result<Option<BotLookup>, BotError>)
    ensures
        order.error is None ==> r matches Ok(None),
        order.error is Some ==> match order.stop {
            StopType::Loss => r matches Ok(Some(BotLookup::ByExitSlOrderId(id))) && id == order.order_id,
            StopType::Entry => r matches Ok(Some(BotLookup::ByExitTpOrderId(id))) && id == order.order_id,
            StopType::Unknown => r matches Err(BotError::UnknownStopType),
        },
{
    if order.error.is_none() {
        return Ok(None);
    }
    match order.stop {
        StopType::Loss => Ok(Some(BotLookup::ByExitSlOrderId(order.order_id.clone()))),
        StopType::Entry => Ok(Some(BotLookup::ByExitTpOrderId(order.order_id.clone()))),
        StopType::Unknown => Err(BotError::UnknownStopType),
    }
}

/// A margin order to place (`make_hf_margin_order`).
#[derive(Debug)]
pub struct MarginOrderRequest {
    pub client_oid: String,
    pub side: OrderSide,
    pub symbol: String,
    pub amount: OrderAmount,
    pub order_type: OrderType,
    pub auto_borrow: bool,
    pub auto_repay: bool,
}

/// The bot's exit client order id for a stop type.
pub open spec fn exit_client_oid_for(bot: Bot, stop: StopType) -> Option<String> {
    match stop {
        StopType::Loss => bot.exit_sl_client_oid,
        StopType::Entry => bot.exit_tp_client_oid,
        StopType::Unknown => None,
    }
}

/// The market order that replaces a failed stop order: under the bot's
/// exit client order id, on the stop order's side and symbol, buying with
/// its funds or selling its size.
pub fn advanced_order_replacement(order: &AdvancedOrders, bot: &Option<Bot>) -> (r: Result<MarginOrderRequest, BotError>)
    ensures
        match bot {
            None => r matches Err(BotError::BotNotFound),
            Some(b) => if order.stop == StopType::Unknown {
                r matches Err(BotError::UnknownStopType)
            } else {
                match exit_client_oid_for(*b, order.stop) {
                    None => r matches Err(BotError::ExitClientOidMissing),
                    Some(c) => match order.side {
                        OrderSide::Buy => match order.funds {
                            None => r matches Err(BotError::FundsMissing),
                            Some(f) => r matches Ok(q) && q.client_oid == c && q.amount == OrderAmount::Funds(f),
                        },
                        OrderSide::Sell => match order.size {
                            None => r matches Err(BotError::SizeMissing),
                            Some(s) => r matches Ok(q) && q.client_oid == c && q.amount == OrderAmount::Size(s),
                        },
                        OrderSide::Unknown => r matches Err(BotError::UnknownOrderSide),
                    },
                }
            },
        },
        r matches Ok(q) ==> {
            &&& q.side == order.side
            &&& q.symbol == order.symbol
            &&& q.order_type == OrderType::Market
            &&& q.auto_borrow
            &&& !q.auto_repay
        },
{
    let bot = match bot {
        Some(b) => b,
        None => return Err(BotError::BotNotFound),
    };
    let client_oid = match order.stop {
        StopType::Loss => bot.exit_sl_client_oid.clone(),
        StopType::Entry => bot.exit_tp_client_oid.clone(),
        StopType::Unknown => return Err(BotError::UnknownStopType),
    };
    let client_oid = match client_oid {
        Some(c) => c,
        None => return Err(BotError::ExitClientOidMissing),
    };
    let amount = match order.side {
        OrderSide::Buy => match order.funds.as_ref() {
            Some(f) => OrderAmount::Funds(f.clone()),
            None => return Err(BotError::FundsMissing),
        },
        OrderSide::Sell => match order.size.as_ref() {
            Some(s) => OrderAmount::Size(s.clone()),
            None => return Err(BotError::SizeMissing),
        },
        OrderSide::Unknown => return Err(BotError::UnknownOrderSide),
    };
    Ok(MarginOrderRequest {
        client_oid,
        side: order.side,
        symbol: order.symbol.clone(),
        amount,
        order_type: OrderType::Market,
        auto_borrow: true,
        auto_repay: false,
    })
}

// ---------------------------------------------------------------- cancelling all stop orders

/// What to do with a page of the open stop orders (`cancel_all_stop_orders`).
#[derive(Debug)]
pub enum StopOrdersPage {
    /// The page could not be read: ask again.
    Retry,
    /// No stop order is open: done.
    AllCancelled,
    /// Cancel these stop orders by id, then ask again.
    Cancel(Vec<String>),
}

/// The next step of cancelling every open stop order.
pub fn stop_orders_page_step(page: &Option<ApiV3HfMarginStopOrdersResData>) -> (r: StopOrdersPage)
    ensures
        match page {
            None => r is Retry,
            Some(p) => if p.total_num == 0 {
                r is AllCancelled
            } else {
                r matches StopOrdersPage::Cancel(ids) && ids@.len() == p.items@.len()
                    && forall|i: int| 0 <= i < ids@.len() ==> #[trigger] ids@[i] == p.items@[i].id
            },
        },
{
    let page = match page {
        Some(p) => p,
        None => return StopOrdersPage::Retry,
    };
    if page.total_num == 0 {
        return StopOrdersPage::AllCancelled;
    }
    let mut ids: Vec<String> = Vec::new();
    let mut i: usize = 0;
    while i < page.items.len()
        invariant
            i <= page.items@.len(),
            ids@.len() == i,
            forall|j: int| 0 <= j < i ==> #[trigger] ids@[j] == page.items@[j].id,
        decreases page.items@.len() - i,
    {
        ids.push(page.items[i].id.clone());
        i = i + 1;
    }
    StopOrdersPage::Cancel(ids)
}

} // verus!
