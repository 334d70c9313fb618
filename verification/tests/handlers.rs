use kucoin_bot::decimal::Dec;
use kucoin_bot::error::BotError;
use kucoin_bot::handlers::{
    currency_precision, parse_debt_pairs, repay_for_debt, route_message, MessageKind, MessageRoute,
};
use kucoin_bot::models::{
    AdvancedOrders, ApiV3HfMarginStopOrdersResData, ApiV3HfMarginStopOrdersResDataItem, AssetInfo, Bot,
    Currencies, OrderAmount, OrderSide, OrderTopic, OrderType, StopType,
};
use kucoin_bot::stop_order_handlers::{
    advanced_order_lookup, advanced_order_replacement, stop_orders_page_step, BotLookup, StopOrdersPage,
};

fn dec(negative: bool, mantissa: u128, scale: u32) -> Dec {
    Dec { negative, mantissa, scale }
}

fn asset(available: &str) -> Option<AssetInfo> {
    Some(AssetInfo { total: "10".to_string(), available: available.to_string(), hold: "0".to_string() })
}

fn stop_order(error: Option<&str>, stop: StopType, side: OrderSide, funds: Option<&str>, size: Option<&str>) -> AdvancedOrders {
    AdvancedOrders {
        created_at: 1,
        funds: funds.map(|s| s.to_string()),
        size: size.map(|s| s.to_string()),
        order_id: "stop-1".to_string(),
        order_type: "market".to_string(),
        side,
        stop,
        stop_price: "100".to_string(),
        symbol: "BTC-USDT".to_string(),
        trade_type: "MARGIN_TRADE".to_string(),
        ts: 2,
        type_: "cancel".to_string(),
        error: error.map(|s| s.to_string()),
    }
}

fn bot() -> Bot {
    Bot {
        id: 1,
        balance: "10".to_string(),
        entry_client_oid: Some("e".to_string()),
        exit_tp_client_oid: Some("tp".to_string()),
        exit_sl_client_oid: Some("sl".to_string()),
    }
}

#[test]
fn message_routes() {
    assert_eq!(route_message(MessageKind::Welcome).unwrap(), MessageRoute::SaveEvent);
    assert_eq!(route_message(MessageKind::Ack).unwrap(), MessageRoute::SaveEvent);
    assert_eq!(route_message(MessageKind::Message(OrderTopic::Balance)).unwrap(), MessageRoute::SaveBalance);
    assert_eq!(route_message(MessageKind::Message(OrderTopic::TradeOrders)).unwrap(), MessageRoute::TradeOrder);
    assert_eq!(route_message(MessageKind::Message(OrderTopic::AdvancedOrders)).unwrap(), MessageRoute::AdvancedOrder);
    assert_eq!(route_message(MessageKind::Message(OrderTopic::Position)).unwrap(), MessageRoute::Position);
    assert!(matches!(route_message(MessageKind::Message(OrderTopic::Unknown)), Err(BotError::UnknownTopic)));
    assert!(matches!(route_message(MessageKind::Error), Err(BotError::WebSocketError)));
    assert!(matches!(route_message(MessageKind::Unknown), Err(BotError::UnknownMessageType)));
}

#[test]
fn debt_pairs_in_order() {
    let debts = vec![("BTC".to_string(), "0.5".to_string()), ("USDT".to_string(), "12".to_string())];
    let pairs = parse_debt_pairs(&debts).unwrap();
    assert_eq!(pairs, vec![("BTC".to_string(), dec(false, 5, 1)), ("USDT".to_string(), dec(false, 12, 0))]);
    assert!(parse_debt_pairs(&vec![]).unwrap().is_empty());
}

#[test]
fn debt_pairs_fail_on_first_bad_amount() {
    let debts = vec![
        ("BTC".to_string(), "0.5".to_string()),
        ("ETH".to_string(), "bad".to_string()),
        ("USDT".to_string(), "worse".to_string()),
    ];
    match parse_debt_pairs(&debts) {
        Err(BotError::InvalidDecimal(t)) => assert_eq!(t, "bad"),
        other => panic!("unexpected {:?}", other),
    }
}

#[test]
fn repayment_is_the_smaller_amount() {
    assert_eq!(repay_for_debt(&dec(false, 5, 0), &asset("3")).unwrap(), Some(dec(false, 3, 0)));
    assert_eq!(repay_for_debt(&dec(false, 25, 1), &asset("3")).unwrap(), Some(dec(false, 25, 1)));
    assert_eq!(repay_for_debt(&dec(false, 30, 1), &asset("3")).unwrap(), Some(dec(false, 30, 1)));
}

#[test]
fn no_repayment_without_debt_or_funds() {
    assert_eq!(repay_for_debt(&dec(false, 0, 0), &asset("3")).unwrap(), None);
    assert_eq!(repay_for_debt(&dec(false, 5, 0), &asset("0")).unwrap(), None);
    assert_eq!(repay_for_debt(&dec(false, 5, 0), &asset("-1")).unwrap(), None);
    assert_eq!(repay_for_debt(&dec(false, 5, 0), &None).unwrap(), None);
    assert!(matches!(repay_for_debt(&dec(false, 5, 0), &asset("?")), Err(BotError::InvalidDecimal(_))));
}

#[test]
fn repayment_bounded_by_debt_and_funds() {
    for (l, a) in [(5u128, 3u128), (3, 5), (4, 4), (1, 1000)] {
        let r = repay_for_debt(&dec(false, l, 0), &asset(&a.to_string())).unwrap().unwrap();
        assert!(r.mantissa <= l && r.mantissa <= a && r.mantissa > 0);
    }
}

#[test]
fn currency_precisions() {
    assert_eq!(currency_precision(&Some(Currencies { precision: 8 })).unwrap(), dec(false, 1, 8));
    assert!(matches!(currency_precision(&None), Err(BotError::CurrencyInfoNotFound)));
    assert!(matches!(currency_precision(&Some(Currencies { precision: -2 })), Err(BotError::NegativePrecision(-2))));
}

#[test]
fn successful_stop_orders_need_nothing() {
    assert!(advanced_order_lookup(&stop_order(None, StopType::Loss, OrderSide::Sell, None, Some("1"))).unwrap().is_none());
}

#[test]
fn failed_stop_orders_look_up_the_bot() {
    match advanced_order_lookup(&stop_order(Some("e"), StopType::Loss, OrderSide::Sell, None, Some("1"))).unwrap() {
        Some(BotLookup::ByExitSlOrderId(id)) => assert_eq!(id, "stop-1"),
        other => panic!("unexpected {:?}", other),
    }
    match advanced_order_lookup(&stop_order(Some("e"), StopType::Entry, OrderSide::Sell, None, Some("1"))).unwrap() {
        Some(BotLookup::ByExitTpOrderId(id)) => assert_eq!(id, "stop-1"),
        other => panic!("unexpected {:?}", other),
    }
    assert!(matches!(advanced_order_lookup(&stop_order(Some("e"), StopType::Unknown, OrderSide::Sell, None, None)), Err(BotError::UnknownStopType)));
}

#[test]
fn failed_stop_orders_are_replaced_at_market() {
    let q = advanced_order_replacement(&stop_order(Some("e"), StopType::Loss, OrderSide::Sell, None, Some("0.3")), &Some(bot())).unwrap();
    assert_eq!(q.client_oid, "sl");
    assert_eq!(q.side, OrderSide::Sell);
    assert_eq!(q.symbol, "BTC-USDT");
    assert!(matches!(q.amount, OrderAmount::Size(ref s) if s == "0.3"));
    assert_eq!(q.order_type, OrderType::Market);
    assert!(q.auto_borrow && !q.auto_repay);
    let q = advanced_order_replacement(&stop_order(Some("e"), StopType::Entry, OrderSide::Buy, Some("50"), None), &Some(bot())).unwrap();
    assert_eq!(q.client_oid, "tp");
    assert!(matches!(q.amount, OrderAmount::Funds(ref f) if f == "50"));
}

#[test]
fn replacement_errors() {
    let o = stop_order(Some("e"), StopType::Loss, OrderSide::Buy, None, Some("1"));
    assert!(matches!(advanced_order_replacement(&o, &None), Err(BotError::BotNotFound)));
    assert!(matches!(advanced_order_replacement(&o, &Some(bot())), Err(BotError::FundsMissing)));
    let o = stop_order(Some("e"), StopType::Loss, OrderSide::Sell, Some("1"), None);
    assert!(matches!(advanced_order_replacement(&o, &Some(bot())), Err(BotError::SizeMissing)));
    let o = stop_order(Some("e"), StopType::Loss, OrderSide::Unknown, Some("1"), Some("1"));
    assert!(matches!(advanced_order_replacement(&o, &Some(bot())), Err(BotError::UnknownOrderSide)));
    let o = stop_order(Some("e"), StopType::Unknown, OrderSide::Sell, Some("1"), Some("1"));
    assert!(matches!(advanced_order_replacement(&o, &Some(bot())), Err(BotError::UnknownStopType)));
    let mut b = bot();
    b.exit_sl_client_oid = None;
    let o = stop_order(Some("e"), StopType::Loss, OrderSide::Sell, None, Some("1"));
    assert!(matches!(advanced_order_replacement(&o, &Some(b)), Err(BotError::ExitClientOidMissing)));
}

#[test]
fn stop_order_pages() {
    assert!(matches!(stop_orders_page_step(&None), StopOrdersPage::Retry));
    let empty = ApiV3HfMarginStopOrdersResData { total_num: 0, items: vec![] };
    assert!(matches!(stop_orders_page_step(&Some(empty)), StopOrdersPage::AllCancelled));
    let page = ApiV3HfMarginStopOrdersResData {
        total_num: 2,
        items: vec![
            ApiV3HfMarginStopOrdersResDataItem { id: "a".to_string() },
            ApiV3HfMarginStopOrdersResDataItem { id: "b".to_string() },
        ],
    };
    match stop_orders_page_step(&Some(page)) {
        StopOrdersPage::Cancel(ids) => assert_eq!(ids, vec!["a".to_string(), "b".to_string()]),
        other => panic!("unexpected {:?}", other),
    }
}
