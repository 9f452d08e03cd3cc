//! The adapter for Stripe.

pub mod payment_method;
pub mod request;
pub mod response;
pub mod types;
