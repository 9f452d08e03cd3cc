//! A connector adapter framework for payment processing: one canonical
//! payment model, and for each supported processor the mapping between that
//! model and the processor's own requests, responses and webhooks.
//!
//! The canonical model stands in the modules at the top: amounts and
//! currencies, addresses, payment method data, requests in their context,
//! responses and errors, and the status of an attempt with the rule by
//! which reports of it are merged. Each processor has a module of its own
//! (`adyen`, `bankofamerica`, `stripe`); `connector` names them and tells
//! what each of them is handed. `recovery` decides what is done with the
//! webhook of a billing connector, and `storage` holds what the store of
//! payments decides for itself.
//!
//! Every function here is total on the inputs that its contract admits: a
//! payment method that a processor is not handed, a field that is missing
//! and an answer that cannot be read are errors, never panics.

pub mod consts;
pub mod text;
pub mod errors;
pub mod bank_names;
pub mod country;
pub mod enums;
pub mod currency;
pub mod attempt;
pub mod states;
pub mod address;
pub mod payment_method_data;
pub mod router_response;
pub mod router_data;
pub mod encoding;
pub mod form;
pub mod adyen;
pub mod bankofamerica;
pub mod stripe;
pub mod connector;
pub mod recovery;
pub mod storage;
