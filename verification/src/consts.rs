//! Sentinel texts that stand in for data a connector left out.

use vstd::prelude::*;

verus! {

/// Reported as the error code when the connector supplied none.
pub const NO_ERROR_CODE: &'static str = "No error code";

/// Reported as the error message when the connector supplied none.
pub const NO_ERROR_MESSAGE: &'static str = "No error message";

/// Reported as code and message of a refund that the connector voided.
pub const REFUND_VOIDED: &'static str = "Refund request has been voided.";

/// Return address handed to a connector when the caller configured none.
pub const DEFAULT_RETURN_URL: &'static str = "https://juspay.in/";

/// None of the sentinel texts is empty.
pub proof fn lemma_sentinels_nonempty()
    ensures
        NO_ERROR_CODE@.len() > 0,
        NO_ERROR_MESSAGE@.len() > 0,
        REFUND_VOIDED@.len() > 0,
{
    reveal_strlit("No error code");
    reveal_strlit("No error message");
    reveal_strlit("Refund request has been voided.");
}

} // verus!
