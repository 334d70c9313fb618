pub mod decimal;
pub mod error;
pub mod handlers;
pub mod models;
pub mod order_processor;
pub mod stop_order_handlers;
pub mod text;
