//! Placing orders: a batch of limit orders, or a market order.

pub mod batch;
pub mod canonical;
pub mod request;
pub mod types;
