//! The adapter for Adyen.

pub mod banks;
pub mod dispute;
pub mod flows;
pub mod mapper;
pub mod payment_method;
pub mod payment_request;
pub mod payout;
pub mod request;
pub mod response;
pub mod split;
pub mod status;
pub mod types;
pub mod webhook;
