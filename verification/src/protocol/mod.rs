//! How requests are built and signed.

pub mod place_order;
pub mod place_orders;
pub mod signature;
