//! The adapter for Bank of America.

pub mod error;
pub mod payment_request;
pub mod request;
pub mod response;
pub mod status;
pub mod types;
