//! The errors with which a mapping between the canonical model and a
//! connector's wire format fails.

use vstd::prelude::*;

verus! {

/// Why a connector could not be handed a request, or why what it sent back
/// could not be read.
///
/// A decline by the connector is no such error: it is a response with the
/// status `Failure` and an `ErrorResponse`.
#[derive(Clone, Copy, Debug, PartialEq, Eq)]
pub enum ConnectorError {
    /// A field that the connector insists on is absent from the request.
    MissingRequiredField { field_name: &'static str },
    /// The connector never supports this payment method or feature.
    NotImplemented { connector: &'static str, feature: &'static str },
    /// The connector supports the payment method in general, but not in this
    /// combination.
    NotSupported { feature: &'static str, context: &'static str },
    /// The credentials do not have the shape the connector works with.
    FailedToObtainAuthType,
    /// A setting of the connector account is missing or malformed.
    InvalidConnectorConfig { config: &'static str },
    /// The body of a webhook does not describe a payment event.
    WebhookBodyDecodingFailed,
    /// The connector has no such flow.
    FlowNotSupported { flow: &'static str, connector: &'static str },
    /// A response that reports success is malformed.
    ResponseHandlingFailed,
    /// The payment method data does not belong to the payment method type.
    MismatchedPaymentData,
    /// The request could not be put into the connector's format.
    RequestEncodingFailed,
    /// The request names no payment method type where one is needed.
    MissingPaymentMethodType,
    /// The wallet is none that the connector can be handed.
    InvalidWallet,
    /// The connector cannot capture in the way the request asks for.
    CaptureMethodNotSupported,
    /// A field is present, but what it holds cannot be read.
    InvalidDataFormat { field_name: &'static str },
}

impl ConnectorError {
    /// The text shown for this error.
    pub open spec fn spec_message(self) -> Seq<char> {
        match self {
            ConnectorError::MissingRequiredField { field_name } => "Missing required field: "@
                + field_name@,
            ConnectorError::NotImplemented { connector, feature } => feature@
                + " is not implemented for connector "@ + connector@,
            ConnectorError::NotSupported { feature, context } => feature@
                + " is not supported by "@ + context@,
            ConnectorError::FailedToObtainAuthType => "Failed to obtain authentication type"@,
            ConnectorError::InvalidConnectorConfig { config } => "Invalid connector configuration: "@
                + config@,
            ConnectorError::WebhookBodyDecodingFailed => "Failed to decode webhook event body"@,
            ConnectorError::FlowNotSupported { flow, connector } => flow@
                + " flow not supported by "@ + connector@ + " connector"@,
            ConnectorError::ResponseHandlingFailed => "Failed to handle connector response"@,
            ConnectorError::MismatchedPaymentData =>
                "Payment method data and payment method type do not match"@,
            ConnectorError::RequestEncodingFailed => "Failed to encode connector request"@,
            ConnectorError::MissingPaymentMethodType => "Payment method type not found"@,
            ConnectorError::InvalidWallet => "Invalid wallet"@,
            ConnectorError::CaptureMethodNotSupported => "Capture method not supported"@,
            ConnectorError::InvalidDataFormat { field_name } => "Invalid data format: "@
                + field_name@,
        }
    }

    /// Renders the error as a stable, descriptive text.
    pub fn message(&self) -> (res: String)
        ensures
            res@ == self.spec_message(),
    {
        match *self {
            ConnectorError::MissingRequiredField { field_name } => {
                let mut s = "Missing required field: ".to_owned();
                s.append(field_name);
                s
            },
            ConnectorError::NotImplemented { connector, feature } => {
                let mut s = feature.to_owned();
                s.append(" is not implemented for connector ");
                s.append(connector);
                s
            },
            ConnectorError::NotSupported { feature, context } => {
                let mut s = feature.to_owned();
                s.append(" is not supported by ");
                s.append(context);
                s
            },
            ConnectorError::FailedToObtainAuthType => {
                "Failed to obtain authentication type".to_owned()
            },
            ConnectorError::InvalidConnectorConfig { config } => {
                let mut s = "Invalid connector configuration: ".to_owned();
                s.append(config);
                s
            },
            ConnectorError::WebhookBodyDecodingFailed => {
                "Failed to decode webhook event body".to_owned()
            },
            ConnectorError::FlowNotSupported { flow, connector } => {
                let mut s = flow.to_owned();
                s.append(" flow not supported by ");
                s.append(connector);
                s.append(" connector");
                s
            },
            ConnectorError::ResponseHandlingFailed => {
                "Failed to handle connector response".to_owned()
            },
            ConnectorError::MismatchedPaymentData => {
                "Payment method data and payment method type do not match".to_owned()
            },
            ConnectorError::RequestEncodingFailed => {
                "Failed to encode connector request".to_owned()
            },
            ConnectorError::MissingPaymentMethodType => "Payment method type not found".to_owned(),
            ConnectorError::InvalidWallet => "Invalid wallet".to_owned(),
            ConnectorError::CaptureMethodNotSupported => {
                "Capture method not supported".to_owned()
            },
            ConnectorError::InvalidDataFormat { field_name } => {
                let mut s = "Invalid data format: ".to_owned();
                s.append(field_name);
                s
            },
        }
    }
}

/// What a required field holds, or the error that names the field when it
/// is absent.
pub open spec fn spec_required<T>(field: Option<T>, field_name: &'static str) -> Result<
    T,
    ConnectorError,
> {
    match field {
        Some(value) => Ok(value),
        None => Err(ConnectorError::MissingRequiredField { field_name }),
    }
}

/// Checks that a required field is present.
///
/// Returns the field's value, or `MissingRequiredField` with `message` as
/// the field's name.
pub fn check_required_field<'a, T>(field: &'a Option<T>, message: &'static str) -> (res: Result<
    &'a T,
    ConnectorError,
>)
    ensures
        res == spec_required(
            match *field {
                Some(value) => Some(&value),
                None => None,
            },
            message,
        ),
{
    match field {
        Some(value) => Ok(value),
        None => Err(ConnectorError::MissingRequiredField { field_name: message }),
    }
}

} // verus!
