//! The enumerations of the canonical payment model.

use vstd::prelude::*;

verus! {

/// Where one attempt at a payment stands.
///
/// The variants are listed in the order of the state machine: an attempt
/// starts at the top and moves down. `Charged`, `Voided` and `Failure` are
/// terminal.
#[derive(Clone, Copy, Debug, PartialEq, Eq, Hash, Structural)]
pub enum AttemptStatus {
    Started,
    PaymentMethodAwaited,
    ConfirmationAwaited,
    Authorizing,
    AuthenticationPending,
    AuthenticationSuccessful,
    Pending,
    Authorized,
    Charged,
    CaptureFailed,
    Voided,
    VoidFailed,
    Failure,
}

impl AttemptStatus {
    /// The name of the status as it is written in messages and stored records.
    pub open spec fn spec_as_str(self) -> &'static str {
        match self {
            AttemptStatus::Started => "started",
            AttemptStatus::PaymentMethodAwaited => "payment_method_awaited",
            AttemptStatus::ConfirmationAwaited => "confirmation_awaited",
            AttemptStatus::Authorizing => "authorizing",
            AttemptStatus::AuthenticationPending => "authentication_pending",
            AttemptStatus::AuthenticationSuccessful => "authentication_successful",
            AttemptStatus::Pending => "pending",
            AttemptStatus::Authorized => "authorized",
            AttemptStatus::Charged => "charged",
            AttemptStatus::CaptureFailed => "capture_failed",
            AttemptStatus::Voided => "voided",
            AttemptStatus::VoidFailed => "void_failed",
            AttemptStatus::Failure => "failure",
        }
    }

    /// The name of the status as it is written in messages and stored records.
    pub fn as_str(&self) -> (res: &'static str)
        ensures
            res == self.spec_as_str(),
    {
        match self {
            AttemptStatus::Started => "started",
            AttemptStatus::PaymentMethodAwaited => "payment_method_awaited",
            AttemptStatus::ConfirmationAwaited => "confirmation_awaited",
            AttemptStatus::Authorizing => "authorizing",
            AttemptStatus::AuthenticationPending => "authentication_pending",
            AttemptStatus::AuthenticationSuccessful => "authentication_successful",
            AttemptStatus::Pending => "pending",
            AttemptStatus::Authorized => "authorized",
            AttemptStatus::Charged => "charged",
            AttemptStatus::CaptureFailed => "capture_failed",
            AttemptStatus::Voided => "voided",
            AttemptStatus::VoidFailed => "void_failed",
            AttemptStatus::Failure => "failure",
        }
    }
}

/// The family a payment method belongs to.
#[derive(Clone, Copy, Debug, PartialEq, Eq, Hash, Structural)]
pub enum PaymentMethod {
    Card,
    CardRedirect,
    PayLater,
    Wallet,
    BankRedirect,
    BankTransfer,
    Crypto,
    BankDebit,
    Reward,
    RealTimePayment,
    Upi,
    Voucher,
    GiftCard,
    OpenBanking,
    MobilePayment,
}

impl PaymentMethod {
    /// The name of the family as it is written in messages.
    pub open spec fn spec_as_str(self) -> &'static str {
        match self {
            PaymentMethod::Card => "card",
            PaymentMethod::CardRedirect => "card_redirect",
            PaymentMethod::PayLater => "pay_later",
            PaymentMethod::Wallet => "wallet",
            PaymentMethod::BankRedirect => "bank_redirect",
            PaymentMethod::BankTransfer => "bank_transfer",
            PaymentMethod::Crypto => "crypto",
            PaymentMethod::BankDebit => "bank_debit",
            PaymentMethod::Reward => "reward",
            PaymentMethod::RealTimePayment => "real_time_payment",
            PaymentMethod::Upi => "upi",
            PaymentMethod::Voucher => "voucher",
            PaymentMethod::GiftCard => "gift_card",
            PaymentMethod::OpenBanking => "open_banking",
            PaymentMethod::MobilePayment => "mobile_payment",
        }
    }

    /// The name of the family as it is written in messages.
    pub fn as_str(&self) -> (res: &'static str)
        ensures
            res == self.spec_as_str(),
    {
        match self {
            PaymentMethod::Card => "card",
            PaymentMethod::CardRedirect => "card_redirect",
            PaymentMethod::PayLater => "pay_later",
            PaymentMethod::Wallet => "wallet",
            PaymentMethod::BankRedirect => "bank_redirect",
            PaymentMethod::BankTransfer => "bank_transfer",
            PaymentMethod::Crypto => "crypto",
            PaymentMethod::BankDebit => "bank_debit",
            PaymentMethod::Reward => "reward",
            PaymentMethod::RealTimePayment => "real_time_payment",
            PaymentMethod::Upi => "upi",
            PaymentMethod::Voucher => "voucher",
            PaymentMethod::GiftCard => "gift_card",
            PaymentMethod::OpenBanking => "open_banking",
            PaymentMethod::MobilePayment => "mobile_payment",
        }
    }
}

/// The scheme of a payment method within its family.
#[derive(Clone, Copy, Debug, PartialEq, Eq, Hash, Structural)]
pub enum PaymentMethodType {
    Ach,
    Affirm,
    AfterpayClearpay,
    Alfamart,
    AliPay,
    AliPayHk,
    Alma,
    AmazonPay,
    ApplePay,
    Atome,
    Bacs,
    BancontactCard,
    Becs,
    Benefit,
    Bizum,
    Blik,
    Boleto,
    BcaBankTransfer,
    BniVa,
    BriVa,
    CardRedirect,
    CimbVa,
    Classic,
    Credit,
    CryptoCurrency,
    Cashapp,
    Dana,
    DanamonVa,
    Debit,
    Efecty,
    Eft,
    Eps,
    Evoucher,
    Giropay,
    Givex,
    GooglePay,
    GoPay,
    Gcash,
    Ideal,
    Interac,
    Indomaret,
    Klarna,
    KakaoPay,
    LocalBankRedirect,
    MandiriVa,
    Knet,
    MbWay,
    MobilePay,
    Momo,
    MomoAtm,
    Multibanco,
    OnlineBankingThailand,
    OnlineBankingCzechRepublic,
    OnlineBankingFinland,
    OnlineBankingFpx,
    OnlineBankingPoland,
    OnlineBankingSlovakia,
    Oxxo,
    PagoEfectivo,
    PermataBankTransfer,
    OpenBankingUk,
    PayBright,
    Paypal,
    Paze,
    Pix,
    PaySafeCard,
    Przelewy24,
    Pse,
    RedCompra,
    RedPagos,
    SamsungPay,
    Sepa,
    Sofort,
    Swish,
    TouchNGo,
    Trustly,
    Twint,
    UpiCollect,
    UpiIntent,
    Vipps,
    Venmo,
    Walley,
    WeChatPay,
    SevenEleven,
    Lawson,
    MiniStop,
    FamilyMart,
    Seicomart,
    PayEasy,
    LocalBankTransfer,
    Mifinity,
}

impl PaymentMethodType {
    /// The name of the scheme as it is written in messages.
    pub open spec fn spec_as_str(self) -> &'static str {
        match self {
            PaymentMethodType::Ach => "ach",
            PaymentMethodType::Affirm => "affirm",
            PaymentMethodType::AfterpayClearpay => "afterpay_clearpay",
            PaymentMethodType::Alfamart => "alfamart",
            PaymentMethodType::AliPay => "ali_pay",
            PaymentMethodType::AliPayHk => "ali_pay_hk",
            PaymentMethodType::Alma => "alma",
            PaymentMethodType::AmazonPay => "amazon_pay",
            PaymentMethodType::ApplePay => "apple_pay",
            PaymentMethodType::Atome => "atome",
            PaymentMethodType::Bacs => "bacs",
            PaymentMethodType::BancontactCard => "bancontact_card",
            PaymentMethodType::Becs => "becs",
            PaymentMethodType::Benefit => "benefit",
            PaymentMethodType::Bizum => "bizum",
            PaymentMethodType::Blik => "blik",
            PaymentMethodType::Boleto => "boleto",
            PaymentMethodType::BcaBankTransfer => "bca_bank_transfer",
            PaymentMethodType::BniVa => "bni_va",
            PaymentMethodType::BriVa => "bri_va",
            PaymentMethodType::CardRedirect => "card_redirect",
            PaymentMethodType::CimbVa => "cimb_va",
            PaymentMethodType::Classic => "classic",
            PaymentMethodType::Credit => "credit",
            PaymentMethodType::CryptoCurrency => "crypto_currency",
            PaymentMethodType::Cashapp => "cashapp",
            PaymentMethodType::Dana => "dana",
            PaymentMethodType::DanamonVa => "danamon_va",
            PaymentMethodType::Debit => "debit",
            PaymentMethodType::Efecty => "efecty",
            PaymentMethodType::Eft => "eft",
            PaymentMethodType::Eps => "eps",
            PaymentMethodType::Evoucher => "evoucher",
            PaymentMethodType::Giropay => "giropay",
            PaymentMethodType::Givex => "givex",
            PaymentMethodType::GooglePay => "google_pay",
            PaymentMethodType::GoPay => "go_pay",
            PaymentMethodType::Gcash => "gcash",
            PaymentMethodType::Ideal => "ideal",
            PaymentMethodType::Interac => "interac",
            PaymentMethodType::Indomaret => "indomaret",
            PaymentMethodType::Klarna => "klarna",
            PaymentMethodType::KakaoPay => "kakao_pay",
            PaymentMethodType::LocalBankRedirect => "local_bank_redirect",
            PaymentMethodType::MandiriVa => "mandiri_va",
            PaymentMethodType::Knet => "knet",
            PaymentMethodType::MbWay => "mb_way",
            PaymentMethodType::MobilePay => "mobile_pay",
            PaymentMethodType::Momo => "momo",
            PaymentMethodType::MomoAtm => "momo_atm",
            PaymentMethodType::Multibanco => "multibanco",
            PaymentMethodType::OnlineBankingThailand => "online_banking_thailand",
            PaymentMethodType::OnlineBankingCzechRepublic => "online_banking_czech_republic",
            PaymentMethodType::OnlineBankingFinland => "online_banking_finland",
            PaymentMethodType::OnlineBankingFpx => "online_banking_fpx",
            PaymentMethodType::OnlineBankingPoland => "online_banking_poland",
            PaymentMethodType::OnlineBankingSlovakia => "online_banking_slovakia",
            PaymentMethodType::Oxxo => "oxxo",
            PaymentMethodType::PagoEfectivo => "pago_efectivo",
            PaymentMethodType::PermataBankTransfer => "permata_bank_transfer",
            PaymentMethodType::OpenBankingUk => "open_banking_uk",
            PaymentMethodType::PayBright => "pay_bright",
            PaymentMethodType::Paypal => "paypal",
            PaymentMethodType::Paze => "paze",
            PaymentMethodType::Pix => "pix",
            PaymentMethodType::PaySafeCard => "pay_safe_card",
            PaymentMethodType::Przelewy24 => "przelewy24",
            PaymentMethodType::Pse => "pse",
            PaymentMethodType::RedCompra => "red_compra",
            PaymentMethodType::RedPagos => "red_pagos",
            PaymentMethodType::SamsungPay => "samsung_pay",
            PaymentMethodType::Sepa => "sepa",
            PaymentMethodType::Sofort => "sofort",
            PaymentMethodType::Swish => "swish",
            PaymentMethodType::TouchNGo => "touch_n_go",
            PaymentMethodType::Trustly => "trustly",
            PaymentMethodType::Twint => "twint",
            PaymentMethodType::UpiCollect => "upi_collect",
            PaymentMethodType::UpiIntent => "upi_intent",
            PaymentMethodType::Vipps => "vipps",
            PaymentMethodType::Venmo => "venmo",
            PaymentMethodType::Walley => "walley",
            PaymentMethodType::WeChatPay => "we_chat_pay",
            PaymentMethodType::SevenEleven => "seven_eleven",
            PaymentMethodType::Lawson => "lawson",
            PaymentMethodType::MiniStop => "mini_stop",
            PaymentMethodType::FamilyMart => "family_mart",
            PaymentMethodType::Seicomart => "seicomart",
            PaymentMethodType::PayEasy => "pay_easy",
            PaymentMethodType::LocalBankTransfer => "local_bank_transfer",
            PaymentMethodType::Mifinity => "mifinity",
        }
    }

    /// The name of the scheme as it is written in messages.
    pub fn as_str(&self) -> (res: &'static str)
        ensures
            res == self.spec_as_str(),
    {
        match self {
            PaymentMethodType::Ach => "ach",
            PaymentMethodType::Affirm => "affirm",
            PaymentMethodType::AfterpayClearpay => "afterpay_clearpay",
            PaymentMethodType::Alfamart => "alfamart",
            PaymentMethodType::AliPay => "ali_pay",
            PaymentMethodType::AliPayHk => "ali_pay_hk",
            PaymentMethodType::Alma => "alma",
            PaymentMethodType::AmazonPay => "amazon_pay",
            PaymentMethodType::ApplePay => "apple_pay",
            PaymentMethodType::Atome => "atome",
            PaymentMethodType::Bacs => "bacs",
            PaymentMethodType::BancontactCard => "bancontact_card",
            PaymentMethodType::Becs => "becs",
            PaymentMethodType::Benefit => "benefit",
            PaymentMethodType::Bizum => "bizum",
            PaymentMethodType::Blik => "blik",
            PaymentMethodType::Boleto => "boleto",
            PaymentMethodType::BcaBankTransfer => "bca_bank_transfer",
            PaymentMethodType::BniVa => "bni_va",
            PaymentMethodType::BriVa => "bri_va",
            PaymentMethodType::CardRedirect => "card_redirect",
            PaymentMethodType::CimbVa => "cimb_va",
            PaymentMethodType::Classic => "classic",
            PaymentMethodType::Credit => "credit",
            PaymentMethodType::CryptoCurrency => "crypto_currency",
            PaymentMethodType::Cashapp => "cashapp",
            PaymentMethodType::Dana => "dana",
            PaymentMethodType::DanamonVa => "danamon_va",
            PaymentMethodType::Debit => "debit",
            PaymentMethodType::Efecty => "efecty",
            PaymentMethodType::Eft => "eft",
            PaymentMethodType::Eps => "eps",
            PaymentMethodType::Evoucher => "evoucher",
            PaymentMethodType::Giropay => "giropay",
            PaymentMethodType::Givex => "givex",
            PaymentMethodType::GooglePay => "google_pay",
            PaymentMethodType::GoPay => "go_pay",
            PaymentMethodType::Gcash => "gcash",
            PaymentMethodType::Ideal => "ideal",
            PaymentMethodType::Interac => "interac",
            PaymentMethodType::Indomaret => "indomaret",
            PaymentMethodType::Klarna => "klarna",
            PaymentMethodType::KakaoPay => "kakao_pay",
            PaymentMethodType::LocalBankRedirect => "local_bank_redirect",
            PaymentMethodType::MandiriVa => "mandiri_va",
            PaymentMethodType::Knet => "knet",
            PaymentMethodType::MbWay => "mb_way",
            PaymentMethodType::MobilePay => "mobile_pay",
            PaymentMethodType::Momo => "momo",
            PaymentMethodType::MomoAtm => "momo_atm",
            PaymentMethodType::Multibanco => "multibanco",
            PaymentMethodType::OnlineBankingThailand => "online_banking_thailand",
            PaymentMethodType::OnlineBankingCzechRepublic => "online_banking_czech_republic",
            PaymentMethodType::OnlineBankingFinland => "online_banking_finland",
            PaymentMethodType::OnlineBankingFpx => "online_banking_fpx",
            PaymentMethodType::OnlineBankingPoland => "online_banking_poland",
            PaymentMethodType::OnlineBankingSlovakia => "online_banking_slovakia",
            PaymentMethodType::Oxxo => "oxxo",
            PaymentMethodType::PagoEfectivo => "pago_efectivo",
            PaymentMethodType::PermataBankTransfer => "permata_bank_transfer",
            PaymentMethodType::OpenBankingUk => "open_banking_uk",
            PaymentMethodType::PayBright => "pay_bright",
            PaymentMethodType::Paypal => "paypal",
            PaymentMethodType::Paze => "paze",
            PaymentMethodType::Pix => "pix",
            PaymentMethodType::PaySafeCard => "pay_safe_card",
            PaymentMethodType::Przelewy24 => "przelewy24",
            PaymentMethodType::Pse => "pse",
            PaymentMethodType::RedCompra => "red_compra",
            PaymentMethodType::RedPagos => "red_pagos",
            PaymentMethodType::SamsungPay => "samsung_pay",
            PaymentMethodType::Sepa => "sepa",
            PaymentMethodType::Sofort => "sofort",
            PaymentMethodType::Swish => "swish",
            PaymentMethodType::TouchNGo => "touch_n_go",
            PaymentMethodType::Trustly => "trustly",
            PaymentMethodType::Twint => "twint",
            PaymentMethodType::UpiCollect => "upi_collect",
            PaymentMethodType::UpiIntent => "upi_intent",
            PaymentMethodType::Vipps => "vipps",
            PaymentMethodType::Venmo => "venmo",
            PaymentMethodType::Walley => "walley",
            PaymentMethodType::WeChatPay => "we_chat_pay",
            PaymentMethodType::SevenEleven => "seven_eleven",
            PaymentMethodType::Lawson => "lawson",
            PaymentMethodType::MiniStop => "mini_stop",
            PaymentMethodType::FamilyMart => "family_mart",
            PaymentMethodType::Seicomart => "seicomart",
            PaymentMethodType::PayEasy => "pay_easy",
            PaymentMethodType::LocalBankTransfer => "local_bank_transfer",
            PaymentMethodType::Mifinity => "mifinity",
        }
    }
}

/// How the shopper is taken through a payment.
#[derive(Clone, Copy, Debug, PartialEq, Eq, Hash, Structural)]
pub enum PaymentExperience {
    RedirectToUrl,
    InvokeSdkClient,
    DisplayQrCode,
    OneClick,
    LinkWallet,
    InvokePaymentApp,
    DisplayWaitScreen,
    CollectOtp,
}

impl PaymentExperience {
    /// The name of the experience as it is written in messages.
    pub open spec fn spec_as_str(self) -> &'static str {
        match self {
            PaymentExperience::RedirectToUrl => "redirect_to_url",
            PaymentExperience::InvokeSdkClient => "invoke_sdk_client",
            PaymentExperience::DisplayQrCode => "display_qr_code",
            PaymentExperience::OneClick => "one_click",
            PaymentExperience::LinkWallet => "link_wallet",
            PaymentExperience::InvokePaymentApp => "invoke_payment_app",
            PaymentExperience::DisplayWaitScreen => "display_wait_screen",
            PaymentExperience::CollectOtp => "collect_otp",
        }
    }

    /// The name of the experience as it is written in messages.
    pub fn as_str(&self) -> (res: &'static str)
        ensures
            res == self.spec_as_str(),
    {
        match self {
            PaymentExperience::RedirectToUrl => "redirect_to_url",
            PaymentExperience::InvokeSdkClient => "invoke_sdk_client",
            PaymentExperience::DisplayQrCode => "display_qr_code",
            PaymentExperience::OneClick => "one_click",
            PaymentExperience::LinkWallet => "link_wallet",
            PaymentExperience::InvokePaymentApp => "invoke_payment_app",
            PaymentExperience::DisplayWaitScreen => "display_wait_screen",
            PaymentExperience::CollectOtp => "collect_otp",
        }
    }
}

impl AttemptStatus {
    /// Whether the attempt has come to an end: nothing that arrives later
    /// may change a terminal status.
    pub open spec fn spec_is_terminal(self) -> bool {
        self == AttemptStatus::Charged || self == AttemptStatus::Voided || self
            == AttemptStatus::Failure
    }

    /// Whether the attempt has come to an end.
    pub fn is_terminal(&self) -> (res: bool)
        ensures
            res == self.spec_is_terminal(),
    {
        matches!(self, AttemptStatus::Charged | AttemptStatus::Voided | AttemptStatus::Failure)
    }

    /// Whether the status reports that an operation on the payment failed.
    pub open spec fn spec_is_failure(self) -> bool {
        self == AttemptStatus::CaptureFailed || self == AttemptStatus::VoidFailed || self
            == AttemptStatus::Failure
    }

    /// Whether the status reports that an operation on the payment failed.
    pub fn is_failure(&self) -> (res: bool)
        ensures
            res == self.spec_is_failure(),
    {
        matches!(
            self,
            AttemptStatus::CaptureFailed | AttemptStatus::VoidFailed | AttemptStatus::Failure
        )
    }

    /// The place of the status in the order of the state machine.
    pub open spec fn spec_rank(self) -> nat {
        match self {
            AttemptStatus::Started => 0,
            AttemptStatus::PaymentMethodAwaited => 1,
            AttemptStatus::ConfirmationAwaited => 2,
            AttemptStatus::Authorizing => 3,
            AttemptStatus::AuthenticationPending => 4,
            AttemptStatus::AuthenticationSuccessful => 5,
            AttemptStatus::Pending => 6,
            AttemptStatus::Authorized => 7,
            AttemptStatus::Charged => 8,
            AttemptStatus::CaptureFailed => 9,
            AttemptStatus::Voided => 10,
            AttemptStatus::VoidFailed => 11,
            AttemptStatus::Failure => 12,
        }
    }

    /// The place of the status in the order of the state machine.
    pub fn rank(&self) -> (res: u8)
        ensures
            res == self.spec_rank(),
    {
        match self {
            AttemptStatus::Started => 0,
            AttemptStatus::PaymentMethodAwaited => 1,
            AttemptStatus::ConfirmationAwaited => 2,
            AttemptStatus::Authorizing => 3,
            AttemptStatus::AuthenticationPending => 4,
            AttemptStatus::AuthenticationSuccessful => 5,
            AttemptStatus::Pending => 6,
            AttemptStatus::Authorized => 7,
            AttemptStatus::Charged => 8,
            AttemptStatus::CaptureFailed => 9,
            AttemptStatus::Voided => 10,
            AttemptStatus::VoidFailed => 11,
            AttemptStatus::Failure => 12,
        }
    }
}

/// Who reported a status. The variants run from the most generic source to
/// the most specific one.
#[derive(Clone, Copy, Debug, PartialEq, Eq, Hash, Structural)]
pub enum StatusSource {
    /// A webhook that the connector sent on its own account.
    Webhook,
    /// The answer to a request for the current state.
    Sync,
    /// The answer to an authorize, capture, void or refund request.
    Response,
}

impl StatusSource {
    /// How specific the source is; the higher, the more it is trusted.
    pub open spec fn spec_specificity(self) -> nat {
        match self {
            StatusSource::Webhook => 0,
            StatusSource::Sync => 1,
            StatusSource::Response => 2,
        }
    }

    /// How specific the source is; the higher, the more it is trusted.
    pub fn specificity(&self) -> (res: u8)
        ensures
            res == self.spec_specificity(),
    {
        match self {
            StatusSource::Webhook => 0,
            StatusSource::Sync => 1,
            StatusSource::Response => 2,
        }
    }
}

/// How payment is taken once it is authorized.
#[derive(Clone, Copy, Debug, PartialEq, Eq, Hash, Structural)]
pub enum CaptureMethod {
    Automatic,
    Manual,
    ManualMultiple,
    Scheduled,
}

/// Whether the capture method leaves the capture to a later request. No
/// capture method counts as automatic capture.
pub open spec fn spec_is_manual_capture(capture_method: Option<CaptureMethod>) -> bool {
    capture_method == Some(CaptureMethod::Manual) || capture_method == Some(
        CaptureMethod::ManualMultiple,
    )
}

/// Whether the capture method leaves the capture to a later request.
pub fn is_manual_capture(capture_method: Option<CaptureMethod>) -> (res: bool)
    ensures
        res == spec_is_manual_capture(capture_method),
{
    matches!(capture_method, Some(CaptureMethod::Manual) | Some(CaptureMethod::ManualMultiple))
}

/// Whether a stored payment method is meant for later use with or without
/// the shopper present.
#[derive(Clone, Copy, Debug, PartialEq, Eq, Hash, Structural)]
pub enum FutureUsage {
    OffSession,
    OnSession,
}

/// Whether the payment asks for 3-D Secure authentication.
#[derive(Clone, Copy, Debug, PartialEq, Eq, Hash, Structural)]
pub enum AuthenticationType {
    ThreeDs,
    NoThreeDs,
}

/// The network a card runs on.
#[derive(Clone, Copy, Debug, PartialEq, Eq, Hash, Structural)]
pub enum CardNetwork {
    Visa,
    Mastercard,
    AmericanExpress,
    JCB,
    DinersClub,
    Discover,
    CartesBancaires,
    UnionPay,
    Interac,
    RuPay,
    Maestro,
}

/// The issuer that the leading digits of a card number denote.
#[derive(Clone, Copy, Debug, PartialEq, Eq, Hash, Structural)]
pub enum CardIssuer {
    AmericanExpress,
    Master,
    Maestro,
    Visa,
    Discover,
    DinersClub,
    JCB,
    CarteBlanche,
}

/// Where a refund stands.
#[derive(Clone, Copy, Debug, PartialEq, Eq, Hash, Structural)]
pub enum RefundStatus {
    Failure,
    ManualReview,
    Pending,
    Success,
    TransactionFailure,
}

impl RefundStatus {
    /// Whether the refund failed.
    pub open spec fn spec_is_failure(self) -> bool {
        self == RefundStatus::Failure || self == RefundStatus::TransactionFailure
    }

    /// Whether the refund failed.
    pub fn is_failure(&self) -> (res: bool)
        ensures
            res == self.spec_is_failure(),
    {
        matches!(self, RefundStatus::Failure | RefundStatus::TransactionFailure)
    }
}

/// The stage a dispute has reached.
#[derive(Clone, Copy, Debug, PartialEq, Eq, Hash, Structural)]
pub enum DisputeStage {
    PreDispute,
    Dispute,
    PreArbitration,
}

/// Where a dispute stands.
#[derive(Clone, Copy, Debug, PartialEq, Eq, Hash, Structural)]
pub enum DisputeStatus {
    DisputeOpened,
    DisputeExpired,
    DisputeAccepted,
    DisputeCancelled,
    DisputeChallenged,
    DisputeWon,
    DisputeLost,
}

/// Where a payout stands.
#[derive(Clone, Copy, Debug, PartialEq, Eq, Hash, Structural)]
pub enum PayoutStatus {
    Success,
    Failed,
    Cancelled,
    Initiated,
    Expired,
    Reversed,
    Pending,
    Ineligible,
    RequiresCreation,
    RequiresConfirmation,
    RequiresPayoutMethodData,
    RequiresFulfillment,
    RequiresVendorAccountCreation,
}

/// The kind of instrument a payout goes to.
#[derive(Clone, Copy, Debug, PartialEq, Eq, Hash, Structural)]
pub enum PayoutType {
    Card,
    Bank,
    Wallet,
}

/// The kind of party that receives a payout.
#[derive(Clone, Copy, Debug, PartialEq, Eq, Hash, Structural)]
pub enum PayoutEntityType {
    Individual,
    Company,
    NonProfit,
    PublicSector,
    NaturalPerson,
}

/// What an incoming webhook tells about, in the vocabulary that all
/// connectors share.
#[derive(Clone, Copy, Debug, PartialEq, Eq, Hash, Structural)]
pub enum IncomingWebhookEvent {
    PaymentIntentSuccess,
    PaymentIntentFailure,
    PaymentIntentCancelled,
    PaymentIntentCancelFailure,
    PaymentIntentCaptureSuccess,
    PaymentIntentCaptureFailure,
    RefundSuccess,
    RefundFailure,
    DisputeOpened,
    DisputeChallenged,
    DisputeWon,
    DisputeLost,
    PayoutCreated,
    PayoutFailure,
    PayoutExpired,
    PayoutReversed,
    /// The connector's event has no counterpart here.
    EventNotSupported,
}

/// The share that one item of a split payment stands for.
#[derive(Clone, Copy, Debug, PartialEq, Eq, Hash, Structural)]
pub enum AdyenSplitType {
    BalanceAccount,
    AcquiringFees,
    PaymentFee,
    AdyenFees,
    AdyenCommission,
    AdyenMarkup,
    Interchange,
    SchemeFee,
    Commission,
    TopUp,
    Vat,
}

/// The method of an HTTP request.
#[derive(Clone, Copy, Debug, PartialEq, Eq, Hash, Structural)]
pub enum Method {
    Get,
    Post,
    Put,
    Delete,
    Patch,
}

/// Whether a connector takes amounts in base units or in minor units.
#[derive(Clone, Copy, Debug, PartialEq, Eq, Hash, Structural)]
pub enum CurrencyUnit {
    Base,
    Minor,
}

/// Where a payment as a whole stands.
#[derive(Clone, Copy, Debug, PartialEq, Eq, Hash, Structural)]
pub enum IntentStatus {
    Succeeded,
    Failed,
    Cancelled,
    Processing,
    RequiresCustomerAction,
    RequiresMerchantAction,
    RequiresPaymentMethod,
    RequiresConfirmation,
    RequiresCapture,
    PartiallyCaptured,
    PartiallyCapturedAndCapturable,
}

/// Who set an attempt at a payment off: this system, or another one.
#[derive(Clone, Copy, Debug, PartialEq, Eq, Hash, Structural)]
pub enum TriggeredBy {
    Internal,
    External,
}

} // verus!
