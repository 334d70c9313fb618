use kucoin_bot::decimal::Dec;
use kucoin_bot::error::BotError;
use kucoin_bot::models::{
    Bot, BotOrderType, MakeStopOrderResData, OrderData, OrderEventType, OrderSide, OrderType, StopType,
    Symbol,
};
use kucoin_bot::order_processor::{
    entry_balance, entry_fill, entry_match_price, exit_amount_increment, exit_fill_steps, exit_leg_amounts,
    exit_settlement, exit_stop_order, matched_value, order_client_oid, product, route_bot_order,
    stop_results_plan, BalanceWrite, ExitLeg, StopStep,
};

fn dec(negative: bool, mantissa: u128, scale: u32) -> Dec {
    Dec { negative, mantissa, scale }
}

fn order(client_oid: Option<&str>, filled_size: Option<&str>) -> OrderData {
    OrderData {
        status: "done".to_string(),
        type_: OrderEventType::Match,
        symbol: "BTC-USDT".to_string(),
        side: OrderSide::Buy,
        order_type: OrderType::Market,
        fee_type: None,
        liquidity: None,
        price: None,
        order_id: "o1".to_string(),
        client_oid: client_oid.map(|s| s.to_string()),
        trade_id: None,
        origin_size: None,
        origin_funds: None,
        size: None,
        filled_size: filled_size.map(|s| s.to_string()),
        match_size: None,
        match_price: None,
        canceled_size: None,
        old_size: None,
        remain_size: Some("0".to_string()),
        remain_funds: None,
        order_time: 1,
        ts: 2,
    }
}

fn symbol(price_increment: &str) -> Symbol {
    Symbol {
        exchange: "kucoin".to_string(),
        symbol: "BTC-USDT".to_string(),
        base_increment: "0.0001".to_string(),
        min_funds: Some("0.1".to_string()),
        price_increment: price_increment.to_string(),
        quote_increment: "0.01".to_string(),
        base_min_size: "0.0001".to_string(),
        quote_min_size: "0.1".to_string(),
    }
}

fn bot(balance: &str) -> Bot {
    Bot {
        id: 3,
        balance: balance.to_string(),
        entry_client_oid: Some("entry".to_string()),
        exit_tp_client_oid: Some("tp".to_string()),
        exit_sl_client_oid: Some("sl".to_string()),
    }
}

fn placed(order_id: &str, client_oid: &str) -> MakeStopOrderResData {
    MakeStopOrderResData { order_id: order_id.to_string(), client_oid: client_oid.to_string() }
}

#[test]
fn client_oid_is_required() {
    assert_eq!(order_client_oid(&order(Some("c"), None)).unwrap(), "c");
    assert!(matches!(order_client_oid(&order(None, None)), Err(BotError::ClientOidMissing)));
}

#[test]
fn bot_routing() {
    assert_eq!(route_bot_order(&Some(bot("1")), "entry").unwrap(), BotOrderType::Entry);
    assert_eq!(route_bot_order(&Some(bot("1")), "tp").unwrap(), BotOrderType::TakeProfit);
    assert_eq!(route_bot_order(&Some(bot("1")), "sl").unwrap(), BotOrderType::StopLoss);
    assert!(matches!(route_bot_order(&Some(bot("1")), "other"), Err(BotError::ClientOidNotInBot)));
    assert!(matches!(route_bot_order(&None, "entry"), Err(BotError::BotNotFound)));
}

#[test]
fn entry_fill_steps() {
    let e = entry_fill(&order(Some("c"), Some("0.25")), &Some(symbol("0.01"))).unwrap();
    assert_eq!(e.price_increment, dec(false, 1, 2));
    assert_eq!(e.filled_size, dec(false, 25, 2));
    assert!(matches!(entry_fill(&order(Some("c"), Some("0.25")), &None), Err(BotError::SymbolInfoNotFound)));
    match entry_fill(&order(Some("c"), Some("0.25")), &Some(symbol("x"))) {
        Err(BotError::InvalidDecimal(t)) => assert_eq!(t, "x"),
        other => panic!("unexpected {:?}", other),
    }
    assert!(matches!(entry_fill(&order(Some("c"), None), &Some(symbol("0.01"))), Err(BotError::MissingValue)));
    match entry_fill(&order(Some("c"), Some("1,5")), &Some(symbol("0.01"))) {
        Err(BotError::InvalidDecimal(t)) => assert_eq!(t, "1,5"),
        other => panic!("unexpected {:?}", other),
    }
}

#[test]
fn entry_balance_truncated_and_normalized() {
    let b = entry_balance(&Some("123.456789".to_string())).unwrap().unwrap();
    assert_eq!(b.new_balance, dec(false, 123456789, 6));
    assert_eq!(b.balance_text, "123.4567");
    let b = entry_balance(&Some("10.00000".to_string())).unwrap().unwrap();
    assert_eq!(b.balance_text, "10");
    let b = entry_balance(&Some("42".to_string())).unwrap().unwrap();
    assert_eq!(b.balance_text, "42");
    assert!(entry_balance(&None).unwrap().is_none());
    assert!(matches!(entry_balance(&Some("n/a".to_string())), Err(BotError::InvalidDecimal(_))));
}

#[test]
fn entry_price_is_balance_over_size() {
    assert_eq!(entry_match_price(&dec(false, 100, 0), &dec(false, 4, 0)).unwrap(), dec(false, 25, 0));
    assert_eq!(entry_match_price(&dec(false, 1, 0), &dec(false, 4, 0)).unwrap(), dec(false, 25, 2));
    assert!(matches!(entry_match_price(&dec(false, 100, 0), &dec(false, 0, 3)), Err(BotError::ArithmeticOverflow)));
}

#[test]
fn products() {
    assert_eq!(product(&dec(false, 25, 1), &dec(false, 102, 2)).unwrap(), dec(false, 2550, 3));
    assert_eq!(product(&dec(true, 2, 0), &dec(false, 3, 1)).unwrap(), dec(true, 6, 1));
    assert_eq!(product(&dec(true, 2, 0), &dec(false, 0, 5)).unwrap(), dec(false, 0, 0));
    let max = dec(false, 79228162514264337593543950335, 0);
    assert!(matches!(product(&max, &dec(false, 2, 0)), Err(BotError::ArithmeticOverflow)));
}

#[test]
fn matched_values() {
    assert_eq!(matched_value(&Some("12.5".to_string())).unwrap(), Some(dec(false, 125, 1)));
    assert_eq!(matched_value(&None).unwrap(), None);
    assert!(matches!(matched_value(&Some("".to_string())), Err(BotError::InvalidDecimal(_))));
}

#[test]
fn exit_increment_by_entry_side() {
    let s = symbol("0.1");
    assert_eq!(exit_amount_increment(OrderSide::Buy, &s).unwrap(), Some(dec(false, 1, 4)));
    assert_eq!(exit_amount_increment(OrderSide::Sell, &s).unwrap(), Some(dec(false, 1, 2)));
    assert_eq!(exit_amount_increment(OrderSide::Unknown, &s).unwrap(), None);
}

#[test]
fn buy_entry_exits_sell_a_size() {
    let tp = exit_stop_order(OrderSide::Buy, ExitLeg::TakeProfit, "t".to_string(), "BTC-USDT".to_string(), "110".to_string(), "0.5".to_string()).unwrap();
    assert_eq!(tp.side, OrderSide::Sell);
    assert_eq!(tp.stop, StopType::Entry);
    assert_eq!(tp.size.as_deref(), Some("0.5"));
    assert!(tp.funds.is_none());
    assert_eq!(tp.order_type, OrderType::Market);
    assert_eq!(tp.time_in_force, "GTC");
    assert!(tp.auto_borrow && !tp.auto_repay && !tp.is_isolated);
    let sl = exit_stop_order(OrderSide::Buy, ExitLeg::StopLoss, "s".to_string(), "BTC-USDT".to_string(), "95".to_string(), "0.5".to_string()).unwrap();
    assert_eq!(sl.side, OrderSide::Sell);
    assert_eq!(sl.stop, StopType::Loss);
    assert_eq!(sl.client_oid, "s");
    assert_eq!(sl.stop_price, "95");
}

#[test]
fn sell_entry_exits_buy_with_funds() {
    let tp = exit_stop_order(OrderSide::Sell, ExitLeg::TakeProfit, "t".to_string(), "ETH-USDT".to_string(), "90".to_string(), "45".to_string()).unwrap();
    assert_eq!(tp.side, OrderSide::Buy);
    assert_eq!(tp.stop, StopType::Loss);
    assert_eq!(tp.funds.as_deref(), Some("45"));
    assert!(tp.size.is_none());
    assert_eq!(tp.symbol, "ETH-USDT");
    let sl = exit_stop_order(OrderSide::Sell, ExitLeg::StopLoss, "s".to_string(), "ETH-USDT".to_string(), "105".to_string(), "52".to_string()).unwrap();
    assert_eq!(sl.stop, StopType::Entry);
    assert!(exit_stop_order(OrderSide::Unknown, ExitLeg::StopLoss, "s".to_string(), "x".to_string(), "1".to_string(), "1".to_string()).is_none());
}

#[test]
fn both_exits_placed_records_both() {
    let p = stop_results_plan(&Some(placed("o1", "t")), &Some(placed("o2", "s")), "t", "s");
    assert!(p.outcome.is_ok());
    assert_eq!(p.steps.len(), 2);
    assert!(matches!(&p.steps[0], StopStep::RecordTpOrderId { order_id, client_oid } if order_id == "o1" && client_oid == "t"));
    assert!(matches!(&p.steps[1], StopStep::RecordSlOrderId { order_id, client_oid } if order_id == "o2" && client_oid == "s"));
}

#[test]
fn only_take_profit_placed_is_cancelled() {
    let p = stop_results_plan(&Some(placed("o1", "t")), &None, "t", "s");
    assert!(matches!(p.outcome, Err(BotError::StopLossPlacementFailed)));
    assert!(matches!(&p.steps[0], StopStep::CancelAtExchange { client_oid } if client_oid == "t"));
    assert!(matches!(&p.steps[1], StopStep::ClearExitTp { client_oid } if client_oid == "t"));
    assert_eq!(p.steps.len(), 2);
}

#[test]
fn only_stop_loss_placed_is_cancelled() {
    let p = stop_results_plan(&None, &Some(placed("o2", "s")), "t", "s");
    assert!(matches!(p.outcome, Err(BotError::TakeProfitPlacementFailed)));
    assert!(matches!(&p.steps[0], StopStep::CancelAtExchange { client_oid } if client_oid == "s"));
    assert!(matches!(&p.steps[1], StopStep::ClearExitSl { client_oid } if client_oid == "s"));
}

#[test]
fn no_exit_placed_clears_both() {
    let p = stop_results_plan(&None, &None, "t", "s");
    assert!(p.outcome.is_ok());
    assert!(matches!(&p.steps[0], StopStep::ClearExitSl { client_oid } if client_oid == "s"));
    assert!(matches!(&p.steps[1], StopStep::ClearExitTp { client_oid } if client_oid == "t"));
}

#[test]
fn exit_orders_stay_paired_in_every_case() {
    let cases = [
        (Some(placed("o1", "t")), Some(placed("o2", "s"))),
        (Some(placed("o1", "t")), None),
        (None, Some(placed("o2", "s"))),
        (None, None),
    ];
    for (tp, sl) in cases {
        let p = stop_results_plan(&tp, &sl, "t", "s");
        let cancelled = |c: &str| p.steps.iter().any(|s| matches!(s, StopStep::CancelAtExchange { client_oid } if client_oid == c));
        let tp_live = tp.as_ref().map_or(false, |t| !cancelled(&t.client_oid));
        let sl_live = sl.as_ref().map_or(false, |s| !cancelled(&s.client_oid));
        assert_eq!(tp_live, sl_live);
        assert_eq!(p.outcome.is_ok(), tp.is_some() == sl.is_some());
    }
}

#[test]
fn filled_exit_clears_itself_then_cancels_its_peer() {
    let steps = exit_fill_steps(ExitLeg::TakeProfit, &bot("1"), "tp");
    assert_eq!(steps.len(), 3);
    assert!(matches!(&steps[0], StopStep::ClearExitTp { client_oid } if client_oid == "tp"));
    assert!(matches!(&steps[1], StopStep::ClearExitSl { client_oid } if client_oid == "sl"));
    assert!(matches!(&steps[2], StopStep::CancelAtExchange { client_oid } if client_oid == "sl"));
    let steps = exit_fill_steps(ExitLeg::StopLoss, &bot("1"), "sl");
    assert_eq!(steps.len(), 3);
    assert!(matches!(&steps[0], StopStep::ClearExitSl { client_oid } if client_oid == "sl"));
    assert!(matches!(&steps[1], StopStep::ClearExitTp { client_oid } if client_oid == "tp"));
    assert!(matches!(&steps[2], StopStep::CancelAtExchange { client_oid } if client_oid == "tp"));
    let mut lone = bot("1");
    lone.exit_sl_client_oid = None;
    let steps = exit_fill_steps(ExitLeg::TakeProfit, &lone, "tp");
    assert_eq!(steps.len(), 1);
    assert!(matches!(&steps[0], StopStep::ClearExitTp { client_oid } if client_oid == "tp"));
}

#[test]
fn take_profit_of_a_short() {
    let s = exit_settlement(ExitLeg::TakeProfit, OrderSide::Buy, &bot("100"), &dec(false, 90, 0)).unwrap().unwrap();
    assert_eq!(s.new_balance, dec(false, 110, 0));
    assert_eq!(s.balance_text, "110.0000");
    assert_eq!(s.write, BalanceWrite::AndClearSymbolByExitTp);
}

#[test]
fn stop_loss_of_a_short() {
    let s = exit_settlement(ExitLeg::StopLoss, OrderSide::Buy, &bot("100"), &dec(false, 1123456, 4)).unwrap().unwrap();
    assert_eq!(s.new_balance, dec(false, 876544, 4));
    assert_eq!(s.balance_text, "87.6544");
    assert_eq!(s.write, BalanceWrite::ByEntryClientOid);
    let s = exit_settlement(ExitLeg::StopLoss, OrderSide::Buy, &bot("100"), &dec(false, 9912345, 5)).unwrap().unwrap();
    assert_eq!(s.balance_text, "100.8765");
}

#[test]
fn exits_of_a_long() {
    let s = exit_settlement(ExitLeg::TakeProfit, OrderSide::Sell, &bot("100"), &dec(false, 10512345, 5)).unwrap().unwrap();
    assert_eq!(s.new_balance, dec(false, 10512345, 5));
    assert_eq!(s.balance_text, "105.1234");
    assert_eq!(s.write, BalanceWrite::AndClearSymbolByExitTp);
    let s = exit_settlement(ExitLeg::StopLoss, OrderSide::Sell, &bot("x"), &dec(false, 95, 0)).unwrap().unwrap();
    assert_eq!(s.balance_text, "95.0000");
    assert_eq!(s.write, BalanceWrite::AndClearSymbolByExitSl);
}

#[test]
fn exits_on_unknown_side_or_bad_balance() {
    assert!(matches!(exit_settlement(ExitLeg::TakeProfit, OrderSide::Unknown, &bot("1"), &dec(false, 1, 0)), Err(BotError::UnknownOrderSide)));
    assert!(exit_settlement(ExitLeg::StopLoss, OrderSide::Unknown, &bot("1"), &dec(false, 1, 0)).unwrap().is_none());
    assert!(matches!(exit_settlement(ExitLeg::TakeProfit, OrderSide::Buy, &bot("oops"), &dec(false, 1, 0)), Err(BotError::InvalidDecimal(_))));
    let max = "79228162514264337593543950335";
    assert!(matches!(exit_settlement(ExitLeg::TakeProfit, OrderSide::Buy, &bot(max), &dec(false, 1, 0)), Err(BotError::ArithmeticOverflow)));
    // a balance with 28 integer digits has no room for four fractional digits in the text.
    let wide = "5000000000000000000000000000";
    assert!(matches!(exit_settlement(ExitLeg::StopLoss, OrderSide::Buy, &bot(wide), &dec(false, 1, 0)), Err(BotError::ArithmeticOverflow)));
    let s = exit_settlement(ExitLeg::TakeProfit, OrderSide::Buy, &bot(wide), &dec(false, 1, 0)).unwrap().unwrap();
    assert_eq!(s.balance_text, "9999999999999999999999999999");
}

#[test]
fn exit_leg_amounts_by_side() {
    let price = dec(false, 100, 0);
    let filled = dec(false, 5, 1);
    let (trigger, amount) = exit_leg_amounts(OrderSide::Buy, &price, &filled, &dec(false, 102, 2)).unwrap().unwrap();
    assert_eq!(trigger, dec(false, 10200, 2));
    assert_eq!(amount, filled);
    let (trigger, funds) = exit_leg_amounts(OrderSide::Sell, &price, &filled, &dec(false, 98, 2)).unwrap().unwrap();
    assert_eq!(trigger, dec(false, 9800, 2));
    assert_eq!(funds, dec(false, 49000, 3));
    assert!(exit_leg_amounts(OrderSide::Unknown, &price, &filled, &dec(false, 98, 2)).unwrap().is_none());
    let max = dec(false, 79228162514264337593543950335, 0);
    assert!(matches!(exit_leg_amounts(OrderSide::Buy, &max, &filled, &dec(false, 2, 0)), Err(BotError::ArithmeticOverflow)));
}

#[test]
fn written_entry_balance_has_four_digits_at_most() {
    for s in ["1.123456789", "0.00001", "12.30000", "5", "-3.99999"] {
        let b = entry_balance(&Some(s.to_string())).unwrap().unwrap();
        let fraction = b.balance_text.split('.').nth(1).unwrap_or("");
        assert!(fraction.len() <= 4, "{}", b.balance_text);
        assert!(!fraction.ends_with('0'), "{}", b.balance_text);
    }
}
