//! The processors that payments can be made with, and what each of them
//! is handed.

use vstd::prelude::*;
use crate::enums::CurrencyUnit;
use crate::errors::ConnectorError;
use crate::payment_method_data::PaymentMethodData;
use crate::router_data::{spec_connector_mandate_id, PaymentsAuthorizeRouterData};

verus! {

/// A processor that payments can be made with.
#[derive(Clone, Copy, Debug, PartialEq, Eq, Hash, Structural)]
pub enum Connector {
    Adyen,
    BankOfAmerica,
    Stripe,
}

impl Connector {
    /// The name of the processor as errors write it.
    pub open spec fn spec_name(self) -> &'static str {
        match self {
            Connector::Adyen => "Adyen",
            Connector::BankOfAmerica => "Bank of America",
            Connector::Stripe => "Stripe",
        }
    }

    /// Tells the name of the processor as errors write it.
    pub fn name(&self) -> (res: &'static str)
        ensures
            res == self.spec_name(),
    {
        match self {
            Connector::Adyen => "Adyen",
            Connector::BankOfAmerica => "Bank of America",
            Connector::Stripe => "Stripe",
        }
    }

    /// The unit in which the processor is told amounts: Bank of America in
    /// base units, the others in minor units.
    pub open spec fn spec_currency_unit(self) -> CurrencyUnit {
        match self {
            Connector::BankOfAmerica => CurrencyUnit::Base,
            Connector::Adyen | Connector::Stripe => CurrencyUnit::Minor,
        }
    }

    /// Tells the unit in which the processor is told amounts.
    pub fn get_currency_unit(&self) -> (res: CurrencyUnit)
        ensures
            res == self.spec_currency_unit(),
    {
        match self {
            Connector::BankOfAmerica => CurrencyUnit::Base,
            Connector::Adyen | Connector::Stripe => CurrencyUnit::Minor,
        }
    }

    /// Whether the processor is handed a payment method.
    pub open spec fn spec_supports(self, payment_method_data: PaymentMethodData) -> bool {
        match self {
            Connector::Adyen => crate::adyen::mapper::spec_supports(payment_method_data),
            Connector::BankOfAmerica => crate::bankofamerica::payment_request::spec_supports(
                payment_method_data,
            ),
            Connector::Stripe => crate::stripe::request::spec_supports(payment_method_data),
        }
    }

    /// Tells whether the processor is handed a payment method.
    pub fn supports(&self, payment_method_data: &PaymentMethodData) -> (res: bool)
        ensures
            res == self.spec_supports(*payment_method_data),
    {
        match self {
            Connector::Adyen => crate::adyen::mapper::supports(payment_method_data),
            Connector::BankOfAmerica => crate::bankofamerica::payment_request::supports(
                payment_method_data,
            ),
            Connector::Stripe => crate::stripe::request::supports(payment_method_data),
        }
    }

    /// The name under which the processor reports a payment method that it
    /// is not handed.
    pub open spec fn spec_feature_name(self, payment_method_data: PaymentMethodData) -> &'static str {
        match self {
            Connector::Adyen => crate::adyen::mapper::spec_feature_name(payment_method_data),
            Connector::BankOfAmerica => crate::bankofamerica::payment_request::spec_feature_name(
                payment_method_data,
            ),
            Connector::Stripe => crate::stripe::request::spec_feature_name(payment_method_data),
        }
    }

    /// The error with which the processor rejects a payment method that it
    /// is not handed.
    pub open spec fn spec_rejection(self, payment_method_data: PaymentMethodData) -> ConnectorError {
        ConnectorError::NotImplemented {
            connector: self.spec_name(),
            feature: self.spec_feature_name(payment_method_data),
        }
    }

    /// Whether the processor takes a payment method, before anything is
    /// built: a payment method that the processor is not handed is rejected
    /// under its own name.
    pub open spec fn spec_validate(self, payment_method_data: PaymentMethodData) -> Result<
        (),
        ConnectorError,
    > {
        if self.spec_supports(payment_method_data) {
            Ok(())
        } else {
            Err(self.spec_rejection(payment_method_data))
        }
    }

    /// Tells whether the processor takes a payment method.
    pub fn validate(&self, payment_method_data: &PaymentMethodData) -> (res: Result<
        (),
        ConnectorError,
    >)
        ensures
            res == self.spec_validate(*payment_method_data),
    {
        if self.supports(payment_method_data) {
            Ok(())
        } else {
            let feature = match self {
                Connector::Adyen => match payment_method_data {
                    PaymentMethodData::Wallet(wallet) => wallet.scheme_name(),
                    PaymentMethodData::PayLater(pay_later) => pay_later.scheme_name(),
                    PaymentMethodData::BankRedirect(bank_redirect) => bank_redirect.scheme_name(),
                    PaymentMethodData::BankDebit(bank_debit) => bank_debit.scheme_name(),
                    PaymentMethodData::BankTransfer(bank_transfer) => bank_transfer.scheme_name(),
                    PaymentMethodData::CardRedirect(card_redirect) => card_redirect.scheme_name(),
                    PaymentMethodData::Voucher(voucher) => voucher.scheme_name(),
                    _ => payment_method_data.kind_name(),
                },
                Connector::BankOfAmerica | Connector::Stripe => match payment_method_data {
                    PaymentMethodData::Wallet(wallet) => wallet.scheme_name(),
                    _ => payment_method_data.kind_name(),
                },
            };
            Err(ConnectorError::NotImplemented { connector: self.name(), feature })
        }
    }

    /// The error with which the payment method of a request is rejected by
    /// the mapping of the processor, if it is.
    pub open spec fn spec_mapping_error(self, item: PaymentsAuthorizeRouterData) -> Option<
        ConnectorError,
    > {
        match self {
            Connector::Adyen => crate::adyen::mapper::spec_mapping_error(item),
            Connector::BankOfAmerica =>
                crate::bankofamerica::payment_request::spec_payment_request_error(item),
            Connector::Stripe => crate::stripe::request::spec_payment_method_error(
                item.request.payment_method_type,
                item.request.payment_experience,
                item.request.payment_method_data,
            ),
        }
    }
}

/// Totality of the mappings: for every processor and every payment method
/// data, a payment method that the processor is not handed is rejected by
/// the mapping of the processor with the error that `validate` gives, which
/// names the processor and the payment method. No mapping ends in a
/// request that leaves such a payment method out.
///
/// With Bank of America this holds of payments that are not made on a
/// mandate that the processor stored: such a payment goes by the mandate,
/// whatever its payment method data.
pub proof fn lemma_every_mapping_is_total(connector: Connector, item: PaymentsAuthorizeRouterData)
    requires
        connector == Connector::BankOfAmerica ==> spec_connector_mandate_id(
            item.request.mandate_id,
        ) is None,
    ensures
        connector.spec_validate(item.request.payment_method_data) matches Err(e)
            ==> connector.spec_mapping_error(item) == Some(e),
        connector.spec_mapping_error(item) matches Some(
            ConnectorError::NotImplemented { connector: name, .. },
        ) ==> name == connector.spec_name(),
{
    match connector {
        Connector::Adyen => {
            crate::adyen::mapper::lemma_mapping_is_total(item);
        },
        Connector::BankOfAmerica => {
            crate::bankofamerica::payment_request::lemma_mapping_is_total(item);
        },
        Connector::Stripe => {
            crate::stripe::request::lemma_mapping_is_total(
                item.request.payment_method_type,
                item.request.payment_experience,
                item.request.payment_method_data,
            );
        },
    }
}

/// Every mandate that a response sets up, with whichever processor, is
/// addressed in exactly one way: by the token that the processor issued
/// for it.
pub proof fn lemma_mandates_are_addressed_in_one_way(
    adyen: Option<crate::adyen::types::AdditionalData>,
    bank_of_america: Option<crate::bankofamerica::types::BankOfAmericaTokenInformation>,
    stripe: Option<String>,
)
    ensures
        crate::adyen::response::spec_mandate_reference(adyen) matches Some(reference)
            ==> reference.wf(),
        crate::bankofamerica::response::spec_mandate_reference(bank_of_america) matches Some(
            reference,
        ) ==> reference.wf(),
        crate::stripe::response::spec_mandate_reference(stripe) matches Some(reference)
            ==> reference.wf(),
{
}

} // verus!
