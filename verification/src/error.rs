use vstd::prelude::*;

verus! {

/// Why a step of the bot's processing failed.
#[derive(Clone, Debug)]
pub enum BotError {
    /// A decimal text (given) could not be parsed.
    InvalidDecimal(String),
    /// A value that the step needs (such as `filled_size` or `min_funds`) is absent.
    MissingValue,
    /// A currency precision below zero.
    NegativePrecision(i16),
    /// No symbol information is stored for the order's symbol.
    SymbolInfoNotFound,
    /// No currency information is stored for a debt's asset.
    CurrencyInfoNotFound,
    /// The order carries no client order id.
    ClientOidMissing,
    /// No bot is stored for the order.
    BotNotFound,
    /// The bot holds the client order id in none of its entry, take-profit or stop-loss slots.
    ClientOidNotInBot,
    /// The order side is neither buy nor sell.
    UnknownOrderSide,
    /// The stop type is neither loss nor entry.
    UnknownStopType,
    /// A buy re-placement without funds.
    FundsMissing,
    /// A sell re-placement without size.
    SizeMissing,
    /// The bot's exit client order id for the stop type is absent.
    ExitClientOidMissing,
    /// The stop-loss order was not placed; the take-profit order was cancelled.
    StopLossPlacementFailed,
    /// The take-profit order was not placed; the stop-loss order was cancelled.
    TakeProfitPlacementFailed,
    /// Decimal arithmetic overflowed, or divided by zero.
    ArithmeticOverflow,
    /// The exchange reported an error on the websocket.
    WebSocketError,
    /// A websocket message of unknown type.
    UnknownMessageType,
    /// A websocket message on an unknown topic.
    UnknownTopic,
}

} // verus!
