//! Payments at Checkout: authorizing and reading their state.
use vstd::prelude::*;
use crate::enums::{AttemptStatus, AuthenticationType, CaptureMethod, Method, MinorUnit};
use crate::errors::{ConnectorError, Unimplemented};
use crate::payment_data::{PaymentMethodData, PaymentMethodToken, WalletData};
use crate::router_data::{ConnectorAuthType, ErrorResponse, PaymentsAuthorizeData, PaymentsAuthorizeRouterData, PaymentsResponseData, PaymentsSyncData, RedirectionData, ResponseId, ResponseRouterData, RouterData};
use crate::secret::Secret;
use crate::text::{clone_optional, concat2};
use crate::web_url::WebUrl;

verus! {

/// A call of Checkout, with the amount in the unit that Checkout takes.
pub struct CheckoutRouterData<T> {
    pub amount: MinorUnit,
    pub router_data: T,
}

impl<T> From<(MinorUnit, T)> for CheckoutRouterData<T> {
    fn from(value: (MinorUnit, T)) -> (res: Self) {
        let (amount, item) = value;
        CheckoutRouterData { amount, router_data: item }
    }
}

impl<T> vstd::std_specs::convert::FromSpecImpl<(MinorUnit, T)> for CheckoutRouterData<T> {
    open spec fn obeys_from_spec() -> bool {
        true
    }

    open spec fn from_spec(value: (MinorUnit, T)) -> Self {
        CheckoutRouterData { amount: value.0, router_data: value.1 }
    }
}

/// The keys that Checkout is used with.
pub struct CheckoutAuthType {
    pub api_key: Secret<String>,
    pub processing_channel_id: Secret<String>,
    pub api_secret: Secret<String>,
}

/// The keys that Checkout is used with, where the merchant gave them.
pub open spec fn checkout_auth(auth_type: ConnectorAuthType) -> Result<
    CheckoutAuthType,
    ConnectorError,
> {
    match auth_type {
        ConnectorAuthType::SignatureKey { api_key, key1, api_secret } => Ok(
            CheckoutAuthType { api_key, api_secret, processing_channel_id: key1 },
        ),
        _ => Err(ConnectorError::FailedToObtainAuthType),
    }
}

impl<'a> TryFrom<&'a ConnectorAuthType> for CheckoutAuthType {
    type Error = ConnectorError;

    fn try_from(auth_type: &'a ConnectorAuthType) -> (res: Result<Self, ConnectorError>) {
        if let ConnectorAuthType::SignatureKey { api_key, api_secret, key1 } = auth_type {
            Ok(
                CheckoutAuthType {
                    api_key: api_key.clone(),
                    api_secret: api_secret.clone(),
                    processing_channel_id: key1.clone(),
                },
            )
        } else {
            Err(ConnectorError::FailedToObtainAuthType)
        }
    }
}

impl<'a> vstd::std_specs::convert::TryFromSpecImpl<&'a ConnectorAuthType> for CheckoutAuthType {
    open spec fn obeys_try_from_spec() -> bool {
        true
    }

    open spec fn try_from_spec(auth_type: &'a ConnectorAuthType) -> Result<Self, ConnectorError> {
        checkout_auth(*auth_type)
    }
}

// ---------------------------------------------------------------------------
// The request
// ---------------------------------------------------------------------------

/// How a payment source is told to Checkout.
#[derive(Clone, Copy, Debug, PartialEq, Eq, Structural)]
pub enum CheckoutSourceTypes {
    Card,
    Token,
}

/// A card as a payment source.
pub struct CardSource {
    pub source_type: CheckoutSourceTypes,
    pub number: Secret<String>,
    pub expiry_month: Secret<String>,
    pub expiry_year: Secret<String>,
    pub cvv: Secret<String>,
}

/// A wallet as a payment source.
pub struct WalletSource {
    pub source_type: CheckoutSourceTypes,
    pub token: Secret<String>,
}

/// A decrypted Apple Pay token as a payment source.
pub struct ApplePayPredecrypt {
    pub token: Secret<String>,
    pub decrypt_type: String,
    pub token_type: String,
    pub expiry_month: Secret<String>,
    pub expiry_year: Secret<String>,
    pub eci: Option<String>,
    pub cryptogram: Secret<String>,
}

/// What a payment is taken from.
pub enum PaymentSource {
    Card(CardSource),
    Wallets(WalletSource),
    ApplePayPredecrypt(Box<ApplePayPredecrypt>),
}

/// Where the customer comes back to.
#[derive(Debug, PartialEq, Eq)]
pub struct ReturnUrl {
    pub success_url: Option<String>,
    pub failure_url: Option<String>,
}

/// What Checkout is told about 3-D Secure.
pub struct CheckoutThreeDS {
    pub enabled: bool,
    pub force_3ds: bool,
    pub eci: Option<String>,
    pub cryptogram: Option<Secret<String>>,
    pub xid: Option<String>,
    pub version: Option<String>,
}

/// A request for a payment.
pub struct PaymentsRequest {
    pub source: PaymentSource,
    pub amount: MinorUnit,
    pub currency: String,
    pub processing_channel_id: Secret<String>,
    pub three_ds: CheckoutThreeDS,
    pub return_url: ReturnUrl,
    pub capture: bool,
    pub reference: String,
    pub metadata: Option<Secret<serde_json::Value>>,
}

/// What a payment at Checkout is meant to end in.
#[derive(Clone, Copy, Debug, PartialEq, Eq, Structural)]
pub enum CheckoutPaymentIntent {
    Capture,
    Authorize,
}

/// What is kept of a payment at Checkout for later calls.
#[derive(Clone, Copy, Debug, PartialEq, Eq, Structural)]
pub struct CheckoutMeta {
    pub psync_flow: CheckoutPaymentIntent,
}

/// The error for a kind of wallet token that Checkout does not take.
pub open spec fn token_not_taken(
    payment_method: &'static str,
    flow: Option<&'static str>,
) -> ConnectorError {
    ConnectorError::NotImplemented(
        Unimplemented::PaymentMethod { payment_method, flow, connector: "Checkout" },
    )
}

/// Why a payment has no source that Checkout takes.
pub open spec fn source_error(
    payment_method_data: PaymentMethodData,
    token: Option<PaymentMethodToken>,
) -> Option<ConnectorError> {
    match payment_method_data {
        PaymentMethodData::Card(_) => None,
        PaymentMethodData::Wallet(WalletData::GooglePay) => match token {
            None => Some(crate::router_data::no_payment_method_token()),
            Some(PaymentMethodToken::Token(_)) => None,
            Some(PaymentMethodToken::ApplePayDecrypt(_)) => Some(
                token_not_taken("Apple Pay", Some("Simplified")),
            ),
            Some(PaymentMethodToken::PazeDecrypt) => Some(token_not_taken("Paze", None)),
            Some(PaymentMethodToken::GooglePayDecrypt) => Some(token_not_taken("Google Pay", None)),
        },
        PaymentMethodData::Wallet(WalletData::ApplePay) => match token {
            None => Some(crate::router_data::no_payment_method_token()),
            Some(PaymentMethodToken::Token(_)) => None,
            Some(PaymentMethodToken::ApplePayDecrypt(data)) => crate::errors::first_of(
                crate::errors::error_of(data.expiry_month),
                crate::errors::error_of(data.four_digit_expiry_year),
            ),
            Some(PaymentMethodToken::PazeDecrypt) => Some(token_not_taken("Paze", None)),
            Some(PaymentMethodToken::GooglePayDecrypt) => Some(token_not_taken("Google Pay", None)),
        },
        _ => Some(crate::checkout::tokens::not_offered()),
    }
}

/// Whether a source is the one for a payment that has one.
pub open spec fn is_source_for(
    source: PaymentSource,
    payment_method_data: PaymentMethodData,
    token: Option<PaymentMethodToken>,
) -> bool {
    match (payment_method_data, token) {
        (PaymentMethodData::Card(card), _) => source == PaymentSource::Card(
            CardSource {
                source_type: CheckoutSourceTypes::Card,
                number: card.card_number,
                expiry_month: card.card_exp_month,
                expiry_year: card.card_exp_year,
                cvv: card.card_cvc,
            },
        ),
        (_, Some(PaymentMethodToken::Token(token))) => source == PaymentSource::Wallets(
            WalletSource { source_type: CheckoutSourceTypes::Token, token },
        ),
        (_, Some(PaymentMethodToken::ApplePayDecrypt(data))) => {
            &&& source matches PaymentSource::ApplePayPredecrypt(decrypted)
            &&& decrypted.token == data.application_primary_account_number
            &&& decrypted.decrypt_type@ == "network_token"@
            &&& decrypted.token_type@ == "applepay"@
            &&& data.expiry_month == Ok::<Secret<String>, ConnectorError>(decrypted.expiry_month)
            &&& data.four_digit_expiry_year == Ok::<Secret<String>, ConnectorError>(
                decrypted.expiry_year,
            )
            &&& decrypted.eci == data.eci_indicator
            &&& decrypted.cryptogram == data.online_payment_cryptogram
        },
        _ => false,
    }
}

/// Finds the source of a payment.
fn payment_source(item: &PaymentsAuthorizeRouterData) -> (res: Result<PaymentSource, ConnectorError>)
    ensures
        match source_error(item.request.payment_method_data, item.payment_method_token) {
            Some(error) => res == Err::<PaymentSource, ConnectorError>(error),
            None => res matches Ok(source) && is_source_for(
                source,
                item.request.payment_method_data,
                item.payment_method_token,
            ),
        },
{
    match &item.request.payment_method_data {
        PaymentMethodData::Card(card) => Ok(
            PaymentSource::Card(
                CardSource {
                    source_type: CheckoutSourceTypes::Card,
                    number: card.card_number.clone(),
                    expiry_month: card.card_exp_month.clone(),
                    expiry_year: card.card_exp_year.clone(),
                    cvv: card.card_cvc.clone(),
                },
            ),
        ),
        PaymentMethodData::Wallet(wallet_data) => match wallet_data {
            WalletData::GooglePay => match item.get_payment_method_token() {
                Err(error) => Err(error),
                Ok(PaymentMethodToken::Token(token)) => Ok(
                    PaymentSource::Wallets(
                        WalletSource {
                            source_type: CheckoutSourceTypes::Token,
                            token: token.clone(),
                        },
                    ),
                ),
                Ok(PaymentMethodToken::ApplePayDecrypt(_)) => Err(
                    ConnectorError::NotImplemented(
                        Unimplemented::PaymentMethod {
                            payment_method: "Apple Pay",
                            flow: Some("Simplified"),
                            connector: "Checkout",
                        },
                    ),
                ),
                Ok(PaymentMethodToken::PazeDecrypt) => Err(
                    ConnectorError::NotImplemented(
                        Unimplemented::PaymentMethod {
                            payment_method: "Paze",
                            flow: None,
                            connector: "Checkout",
                        },
                    ),
                ),
                Ok(PaymentMethodToken::GooglePayDecrypt) => Err(
                    ConnectorError::NotImplemented(
                        Unimplemented::PaymentMethod {
                            payment_method: "Google Pay",
                            flow: None,
                            connector: "Checkout",
                        },
                    ),
                ),
            },
            WalletData::ApplePay => match item.get_payment_method_token() {
                Err(error) => Err(error),
                Ok(PaymentMethodToken::Token(token)) => Ok(
                    PaymentSource::Wallets(
                        WalletSource {
                            source_type: CheckoutSourceTypes::Token,
                            token: token.clone(),
                        },
                    ),
                ),
                Ok(PaymentMethodToken::ApplePayDecrypt(data)) => {
                    let expiry_month = match &data.expiry_month {
                        Ok(month) => month.clone(),
                        Err(error) => {
                            return Err(*error);
                        },
                    };
                    let expiry_year = match &data.four_digit_expiry_year {
                        Ok(year) => year.clone(),
                        Err(error) => {
                            return Err(*error);
                        },
                    };
                    Ok(
                        PaymentSource::ApplePayPredecrypt(
                            Box::new(
                                ApplePayPredecrypt {
                                    token: data.application_primary_account_number.clone(),
                                    decrypt_type: "network_token".to_string(),
                                    token_type: "applepay".to_string(),
                                    expiry_month,
                                    expiry_year,
                                    eci: clone_optional(&data.eci_indicator),
                                    cryptogram: data.online_payment_cryptogram.clone(),
                                },
                            ),
                        ),
                    )
                },
                Ok(PaymentMethodToken::PazeDecrypt) => Err(
                    ConnectorError::NotImplemented(
                        Unimplemented::PaymentMethod {
                            payment_method: "Paze",
                            flow: None,
                            connector: "Checkout",
                        },
                    ),
                ),
                Ok(PaymentMethodToken::GooglePayDecrypt) => Err(
                    ConnectorError::NotImplemented(
                        Unimplemented::PaymentMethod {
                            payment_method: "Google Pay",
                            flow: None,
                            connector: "Checkout",
                        },
                    ),
                ),
            },
            WalletData::AliPayQr
            | WalletData::AliPayRedirect
            | WalletData::AliPayHkRedirect
            | WalletData::AmazonPayRedirect
            | WalletData::Paysera
            | WalletData::Skrill
            | WalletData::BluecodeRedirect
            | WalletData::MomoRedirect
            | WalletData::KakaoPayRedirect
            | WalletData::GoPayRedirect
            | WalletData::GcashRedirect
            | WalletData::ApplePayRedirect
            | WalletData::ApplePayThirdPartySdk
            | WalletData::DanaRedirect
            | WalletData::GooglePayRedirect
            | WalletData::GooglePayThirdPartySdk
            | WalletData::MbWayRedirect
            | WalletData::MobilePayRedirect
            | WalletData::PaypalRedirect
            | WalletData::PaypalSdk
            | WalletData::Paze
            | WalletData::SamsungPay
            | WalletData::TwintRedirect
            | WalletData::VippsRedirect
            | WalletData::TouchNGoRedirect
            | WalletData::WeChatPayRedirect
            | WalletData::CashappQr
            | WalletData::SwishQr
            | WalletData::WeChatPayQr
            | WalletData::Mifinity
            | WalletData::RevolutPay => Err(
                ConnectorError::NotImplemented(
                    Unimplemented::SelectedPaymentMethod { connector: "checkout" },
                ),
            ),
        },
        PaymentMethodData::PayLater
        | PaymentMethodData::BankRedirect
        | PaymentMethodData::BankDebit
        | PaymentMethodData::BankTransfer
        | PaymentMethodData::Crypto
        | PaymentMethodData::MandatePayment
        | PaymentMethodData::Reward
        | PaymentMethodData::RealTimePayment
        | PaymentMethodData::MobilePayment
        | PaymentMethodData::Upi
        | PaymentMethodData::Voucher
        | PaymentMethodData::CardRedirect
        | PaymentMethodData::GiftCard
        | PaymentMethodData::OpenBanking
        | PaymentMethodData::CardToken
        | PaymentMethodData::NetworkToken
        | PaymentMethodData::CardDetailsForNetworkTransactionId => Err(
            ConnectorError::NotImplemented(
                Unimplemented::SelectedPaymentMethod { connector: "checkout" },
            ),
        ),
    }
}

/// What Checkout is told about 3-D Secure.
pub open spec fn three_ds_of(item: PaymentsAuthorizeRouterData) -> CheckoutThreeDS {
    match (item.auth_type, item.request.authentication_data) {
        (AuthenticationType::ThreeDs, Some(auth)) => CheckoutThreeDS {
            enabled: true,
            force_3ds: true,
            eci: auth.eci,
            cryptogram: Some(auth.cavv),
            xid: auth.threeds_server_transaction_id,
            version: auth.message_version,
        },
        (AuthenticationType::ThreeDs, None) => CheckoutThreeDS {
            enabled: true,
            force_3ds: true,
            eci: None,
            cryptogram: None,
            xid: None,
            version: None,
        },
        (AuthenticationType::NoThreeDs, _) => CheckoutThreeDS {
            enabled: false,
            force_3ds: false,
            eci: None,
            cryptogram: None,
            xid: None,
            version: None,
        },
    }
}

fn three_ds(item: &PaymentsAuthorizeRouterData) -> (res: CheckoutThreeDS)
    ensures
        res == three_ds_of(*item),
{
    match item.auth_type {
        AuthenticationType::ThreeDs => match &item.request.authentication_data {
            Some(auth) => CheckoutThreeDS {
                enabled: true,
                force_3ds: true,
                eci: clone_optional(&auth.eci),
                cryptogram: Some(auth.cavv.clone()),
                xid: clone_optional(&auth.threeds_server_transaction_id),
                version: clone_optional(&auth.message_version),
            },
            None => CheckoutThreeDS {
                enabled: true,
                force_3ds: true,
                eci: None,
                cryptogram: None,
                xid: None,
                version: None,
            },
        },
        AuthenticationType::NoThreeDs => CheckoutThreeDS {
            enabled: false,
            force_3ds: false,
            eci: None,
            cryptogram: None,
            xid: None,
            version: None,
        },
    }
}

/// Whether these are the places that the customer comes back to.
pub open spec fn is_return_url(return_url: ReturnUrl, router_return_url: Option<String>) -> bool {
    match router_return_url {
        Some(url) => {
            &&& crate::text::opt_view(return_url.success_url) == Some(url@ + "?status=success"@)
            &&& crate::text::opt_view(return_url.failure_url) == Some(url@ + "?status=failure"@)
        },
        None => return_url.success_url is None && return_url.failure_url is None,
    }
}

impl<'a, 'b> TryFrom<&'a CheckoutRouterData<&'b PaymentsAuthorizeRouterData>> for PaymentsRequest {
    type Error = ConnectorError;

    fn try_from(item: &'a CheckoutRouterData<&'b PaymentsAuthorizeRouterData>) -> (res: Result<Self, ConnectorError>)
        ensures
            match crate::errors::first_of(
                source_error(
                    item.router_data.request.payment_method_data,
                    item.router_data.payment_method_token,
                ),
                crate::errors::error_of(checkout_auth(item.router_data.connector_auth_type)),
            ) {
                Some(error) => res == Err::<PaymentsRequest, ConnectorError>(error),
                None => {
                    &&& res matches Ok(request)
                    &&& is_source_for(
                        request.source,
                        item.router_data.request.payment_method_data,
                        item.router_data.payment_method_token,
                    )
                    &&& request.amount == item.amount
                    &&& request.currency == item.router_data.request.currency.code
                    &&& Ok::<Secret<String>, ConnectorError>(request.processing_channel_id) == (
                    match checkout_auth(item.router_data.connector_auth_type) {
                        Ok(auth) => Ok(auth.processing_channel_id),
                        Err(error) => Err(error),
                    })
                    &&& request.three_ds == three_ds_of(*item.router_data)
                    &&& is_return_url(
                        request.return_url,
                        item.router_data.request.router_return_url,
                    )
                    &&& request.capture == (item.router_data.request.capture_method == Some(
                        CaptureMethod::Automatic,
                    ))
                    &&& request.reference == item.router_data.connector_request_reference_id
                    &&& match item.router_data.request.metadata {
                        Some(value) => request.metadata == Some(Secret { inner_secret: value }),
                        None => request.metadata is None,
                    }
                },
            },
    {
        let source = match payment_source(item.router_data) {
            Ok(source) => source,
            Err(error) => {
                return Err(error);
            },
        };
        let three_ds = three_ds(item.router_data);
        let return_url = match &item.router_data.request.router_return_url {
            Some(url) => ReturnUrl {
                success_url: Some(concat2(url.as_str(), "?status=success")),
                failure_url: Some(concat2(url.as_str(), "?status=failure")),
            },
            None => ReturnUrl { success_url: None, failure_url: None },
        };
        let capture = match item.router_data.request.capture_method {
            Some(CaptureMethod::Automatic) => true,
            _ => false,
        };
        let processing_channel_id = match CheckoutAuthType::try_from(
            &item.router_data.connector_auth_type,
        ) {
            Ok(auth) => auth.processing_channel_id,
            Err(error) => {
                return Err(error);
            },
        };
        let metadata = match crate::json::clone_optional_json(
            &item.router_data.request.metadata,
        ) {
            Some(value) => Some(Secret::new(value)),
            None => None,
        };
        Ok(
            PaymentsRequest {
                source,
                amount: item.amount,
                currency: item.router_data.request.currency.code.clone(),
                processing_channel_id,
                three_ds,
                return_url,
                capture,
                reference: item.router_data.connector_request_reference_id.clone(),
                metadata,
            },
        )
    }
}

impl<'a, 'b> vstd::std_specs::convert::TryFromSpecImpl<&'a CheckoutRouterData<&'b PaymentsAuthorizeRouterData>> for PaymentsRequest {
    open spec fn obeys_try_from_spec() -> bool {
        false
    }

    open spec fn try_from_spec(item: &'a CheckoutRouterData<&'b PaymentsAuthorizeRouterData>) -> Result<Self, ConnectorError> {
        arbitrary()
    }
}

// ---------------------------------------------------------------------------
// The status
// ---------------------------------------------------------------------------

/// Where a payment stands at Checkout.
#[derive(Clone, Copy, Debug, PartialEq, Eq, Structural)]
pub enum CheckoutPaymentStatus {
    Authorized,
    Pending,
    CardVerified,
    Declined,
    Captured,
    RetryScheduled,
    Voided,
    PartiallyCaptured,
    PartiallyRefunded,
    Refunded,
    Canceled,
    Expired,
}

impl Default for CheckoutPaymentStatus {
    fn default() -> (res: Self)
        ensures
            res == CheckoutPaymentStatus::Pending,
    {
        CheckoutPaymentStatus::Pending
    }
}

/// What can still be done with a payment.
#[derive(Clone, Copy, Debug, PartialEq, Eq, Structural, Default)]
pub struct Balances {
    pub available_to_capture: i32,
}

/// Where an attempt stands, but for an authorized payment.
pub open spec fn settled_status(status: CheckoutPaymentStatus, authorized: AttemptStatus) -> AttemptStatus {
    match status {
        CheckoutPaymentStatus::Authorized => authorized,
        CheckoutPaymentStatus::Captured
        | CheckoutPaymentStatus::PartiallyRefunded
        | CheckoutPaymentStatus::Refunded => AttemptStatus::Charged,
        CheckoutPaymentStatus::PartiallyCaptured => AttemptStatus::PartialCharged,
        CheckoutPaymentStatus::Declined
        | CheckoutPaymentStatus::Expired
        | CheckoutPaymentStatus::Canceled => AttemptStatus::Failure,
        CheckoutPaymentStatus::Pending => AttemptStatus::AuthenticationPending,
        CheckoutPaymentStatus::CardVerified
        | CheckoutPaymentStatus::RetryScheduled => AttemptStatus::Pending,
        CheckoutPaymentStatus::Voided => AttemptStatus::Voided,
    }
}

/// Where an attempt stands, given when the payment is to be captured.
pub open spec fn attempt_status_cap(
    status: CheckoutPaymentStatus,
    capture_method: Option<CaptureMethod>,
) -> AttemptStatus {
    settled_status(
        status,
        if capture_method == Some(CaptureMethod::Automatic) || capture_method is None {
            AttemptStatus::Pending
        } else {
            AttemptStatus::Authorized
        },
    )
}

/// Where an attempt stands, given what the payment is meant to end in.
pub open spec fn attempt_status_intent(
    status: CheckoutPaymentStatus,
    psync_flow: CheckoutPaymentIntent,
) -> AttemptStatus {
    settled_status(
        status,
        if psync_flow == CheckoutPaymentIntent::Capture {
            AttemptStatus::Pending
        } else {
            AttemptStatus::Authorized
        },
    )
}

/// Where an attempt stands, given what can still be captured.
pub open spec fn attempt_status_bal(
    status: CheckoutPaymentStatus,
    balances: Option<Balances>,
) -> AttemptStatus {
    settled_status(
        status,
        if balances == Some((Balances { available_to_capture: 0 })) {
            AttemptStatus::Charged
        } else {
            AttemptStatus::Authorized
        },
    )
}

fn settle(status: CheckoutPaymentStatus, authorized: AttemptStatus) -> (res: AttemptStatus)
    ensures
        res == settled_status(status, authorized),
{
    match status {
        CheckoutPaymentStatus::Authorized => authorized,
        CheckoutPaymentStatus::Captured
        | CheckoutPaymentStatus::PartiallyRefunded
        | CheckoutPaymentStatus::Refunded => AttemptStatus::Charged,
        CheckoutPaymentStatus::PartiallyCaptured => AttemptStatus::PartialCharged,
        CheckoutPaymentStatus::Declined
        | CheckoutPaymentStatus::Expired
        | CheckoutPaymentStatus::Canceled => AttemptStatus::Failure,
        CheckoutPaymentStatus::Pending => AttemptStatus::AuthenticationPending,
        CheckoutPaymentStatus::CardVerified | CheckoutPaymentStatus::RetryScheduled => {
            AttemptStatus::Pending
        },
        CheckoutPaymentStatus::Voided => AttemptStatus::Voided,
    }
}

/// Where an attempt stands, given when the payment is to be captured.
pub fn get_attempt_status_cap(item: (CheckoutPaymentStatus, Option<CaptureMethod>)) -> (res: AttemptStatus)
    ensures
        res == attempt_status_cap(item.0, item.1),
{
    let (status, capture_method) = item;
    let authorized = match capture_method {
        Some(CaptureMethod::Automatic) | None => AttemptStatus::Pending,
        _ => AttemptStatus::Authorized,
    };
    settle(status, authorized)
}

/// Where an attempt stands, given what the payment is meant to end in.
pub fn get_attempt_status_intent(item: (CheckoutPaymentStatus, CheckoutPaymentIntent)) -> (res: AttemptStatus)
    ensures
        res == attempt_status_intent(item.0, item.1),
{
    let (status, psync_flow) = item;
    let authorized = if psync_flow == CheckoutPaymentIntent::Capture {
        AttemptStatus::Pending
    } else {
        AttemptStatus::Authorized
    };
    settle(status, authorized)
}

/// Where an attempt stands, given what can still be captured.
pub fn get_attempt_status_bal(item: (CheckoutPaymentStatus, Option<Balances>)) -> (res: AttemptStatus)
    ensures
        res == attempt_status_bal(item.0, item.1),
{
    let (status, balances) = item;
    let authorized = match balances {
        Some(Balances { available_to_capture: 0 }) => AttemptStatus::Charged,
        _ => AttemptStatus::Authorized,
    };
    settle(status, authorized)
}

/// What is kept of a payment that is to be captured in a given way.
pub open spec fn connector_meta(capture_method: CaptureMethod) -> Result<CheckoutMeta, ConnectorError> {
    match capture_method {
        CaptureMethod::Automatic
        | CaptureMethod::SequentialAutomatic => Ok(
            CheckoutMeta { psync_flow: CheckoutPaymentIntent::Capture },
        ),
        CaptureMethod::Manual
        | CaptureMethod::ManualMultiple => Ok(
            CheckoutMeta { psync_flow: CheckoutPaymentIntent::Authorize },
        ),
        CaptureMethod::Scheduled => Err(ConnectorError::CaptureMethodNotSupported),
    }
}

/// What is kept of a payment that is to be captured in a given way.
pub fn get_connector_meta(capture_method: CaptureMethod) -> (res: Result<CheckoutMeta, ConnectorError>)
    ensures
        res == connector_meta(capture_method),
{
    match capture_method {
        CaptureMethod::Automatic | CaptureMethod::SequentialAutomatic => Ok(
            CheckoutMeta { psync_flow: CheckoutPaymentIntent::Capture },
        ),
        CaptureMethod::Manual | CaptureMethod::ManualMultiple => Ok(
            CheckoutMeta { psync_flow: CheckoutPaymentIntent::Authorize },
        ),
        CaptureMethod::Scheduled => Err(ConnectorError::CaptureMethodNotSupported),
    }
}

/// The capture method that counts where a payment names none.
pub open spec fn effective_capture_method(capture_method: Option<CaptureMethod>) -> CaptureMethod {
    match capture_method {
        Some(method) => method,
        None => CaptureMethod::Automatic,
    }
}

/// Outside an authorized payment, the three ways to find where an attempt stands agree.
pub proof fn law_statuses_agree(
    status: CheckoutPaymentStatus,
    capture_method: Option<CaptureMethod>,
    psync_flow: CheckoutPaymentIntent,
    balances: Option<Balances>,
)
    requires
        status !is Authorized,
    ensures
        attempt_status_cap(status, capture_method) == attempt_status_intent(status, psync_flow),
        attempt_status_cap(status, capture_method) == attempt_status_bal(status, balances),
{
}

/// Reading the state of a payment later, with what was kept of it, gives the status that
/// authorizing it gave. An authorized payment under sequential automatic capture is left
/// out: it is authorized at first, and pending when its state is read.
pub proof fn law_later_reading_agrees(
    status: CheckoutPaymentStatus,
    capture_method: Option<CaptureMethod>,
    meta: CheckoutMeta,
)
    requires
        connector_meta(effective_capture_method(capture_method)) == Ok::<
            CheckoutMeta,
            ConnectorError,
        >(meta),
        !(status is Authorized && capture_method == Some(CaptureMethod::SequentialAutomatic)),
    ensures
        attempt_status_intent(status, meta.psync_flow) == attempt_status_cap(
            status,
            capture_method,
        ),
{
}

// ---------------------------------------------------------------------------
// The answer
// ---------------------------------------------------------------------------

/// A link of an answer.
#[derive(Debug, PartialEq, Eq)]
pub struct Href {
    pub redirection_url: WebUrl,
}

/// The links of an answer.
#[derive(Debug, PartialEq, Eq, Default)]
pub struct Links {
    pub redirect: Option<Href>,
}

/// A payment as Checkout tells it.
#[derive(Debug, PartialEq, Eq, Default)]
pub struct PaymentsResponse {
    pub id: String,
    pub amount: Option<MinorUnit>,
    pub currency: Option<String>,
    pub action_id: Option<String>,
    pub status: CheckoutPaymentStatus,
    pub links: Links,
    pub balances: Option<Balances>,
    pub reference: Option<String>,
    pub response_code: Option<String>,
    pub response_summary: Option<String>,
    pub approved: Option<bool>,
    pub processed_on: Option<String>,
}

/// Where the customer has to go on.
pub open spec fn redirection_of(links: Links) -> Option<RedirectionData> {
    match links.redirect {
        Some(href) => Some(
            RedirectionData::Url { url: href.redirection_url, method: Method::Get },
        ),
        None => None,
    }
}

/// Whether an answer is what a payment leads to: an error for a failed payment, and a
/// transaction for any other.
pub open spec fn is_payment_answer(
    answer: Result<PaymentsResponseData, ErrorResponse>,
    response: PaymentsResponse,
    http_code: u16,
    status: AttemptStatus,
    connector_metadata: Option<CheckoutMeta>,
) -> bool {
    if status == AttemptStatus::Failure {
        answer matches Err(error) && error.tells(
            crate::text::view_or(response.response_code, crate::consts::NO_ERROR_CODE@),
            crate::text::view_or(response.response_summary, crate::consts::NO_ERROR_MESSAGE@),
            crate::text::opt_view(response.response_summary),
            http_code,
            Some(response.id@),
        )
    } else {
        answer == Ok::<PaymentsResponseData, ErrorResponse>(
            PaymentsResponseData::TransactionResponse {
                resource_id: ResponseId::ConnectorTransactionId(response.id),
                redirection_data: redirection_of(response.links),
                mandate_reference: None,
                connector_metadata,
                network_txn_id: None,
                connector_response_reference_id: Some(
                    match response.reference {
                        Some(reference) => reference,
                        None => response.id,
                    },
                ),
                incremental_authorization_allowed: None,
            },
        )
    }
}

fn payment_answer(
    response: PaymentsResponse,
    http_code: u16,
    status: AttemptStatus,
    connector_metadata: Option<CheckoutMeta>,
) -> (res: Result<PaymentsResponseData, ErrorResponse>)
    ensures
        is_payment_answer(res, response, http_code, status, connector_metadata),
{
    if status == AttemptStatus::Failure {
        return Err(
            ErrorResponse::from_connector(
                &response.response_code,
                &response.response_summary,
                &response.response_summary,
                http_code,
                Some(response.id.clone()),
            ),
        );
    }
    let redirection_data = match response.links.redirect {
        Some(href) => Some(
            RedirectionData::Url { url: href.redirection_url, method: Method::Get },
        ),
        None => None,
    };
    let reference = match response.reference {
        Some(reference) => reference,
        None => response.id.clone(),
    };
    Ok(
        PaymentsResponseData::TransactionResponse {
            resource_id: ResponseId::ConnectorTransactionId(response.id),
            redirection_data,
            mandate_reference: None,
            connector_metadata,
            network_txn_id: None,
            connector_response_reference_id: Some(reference),
            incremental_authorization_allowed: None,
        },
    )
}

impl TryFrom<ResponseRouterData<PaymentsResponse, PaymentsAuthorizeData, PaymentsResponseData>> for RouterData<PaymentsAuthorizeData, PaymentsResponseData> {
    type Error = ConnectorError;

    fn try_from(item: ResponseRouterData<PaymentsResponse, PaymentsAuthorizeData, PaymentsResponseData>) -> (res: Result<Self, ConnectorError>)
        ensures
            match connector_meta(effective_capture_method(item.data.request.capture_method)) {
                Err(error) => res == Err::<PaymentsAuthorizeRouterData, ConnectorError>(error),
                Ok(meta) => {
                    let status = attempt_status_cap(
                        item.response.status,
                        item.data.request.capture_method,
                    );
                    &&& res matches Ok(after)
                    &&& after == (RouterData { status, response: after.response, ..item.data })
                    &&& is_payment_answer(
                        after.response,
                        item.response,
                        item.http_code,
                        status,
                        Some(meta),
                    )
                },
            },
    {
        let capture_method = match item.data.request.capture_method {
            Some(method) => method,
            None => CaptureMethod::default(),
        };
        let meta = match get_connector_meta(capture_method) {
            Ok(meta) => meta,
            Err(error) => {
                return Err(error);
            },
        };
        let status = get_attempt_status_cap(
            (item.response.status, item.data.request.capture_method),
        );
        let response = payment_answer(item.response, item.http_code, status, Some(meta));
        Ok(RouterData { status, response, ..item.data })
    }
}

impl vstd::std_specs::convert::TryFromSpecImpl<ResponseRouterData<PaymentsResponse, PaymentsAuthorizeData, PaymentsResponseData>> for RouterData<PaymentsAuthorizeData, PaymentsResponseData> {
    open spec fn obeys_try_from_spec() -> bool {
        false
    }

    open spec fn try_from_spec(item: ResponseRouterData<PaymentsResponse, PaymentsAuthorizeData, PaymentsResponseData>) -> Result<Self, ConnectorError> {
        arbitrary()
    }
}

impl TryFrom<ResponseRouterData<PaymentsResponse, PaymentsSyncData, PaymentsResponseData>> for RouterData<PaymentsSyncData, PaymentsResponseData> {
    type Error = ConnectorError;

    fn try_from(item: ResponseRouterData<PaymentsResponse, PaymentsSyncData, PaymentsResponseData>) -> (res: Result<Self, ConnectorError>)
        ensures
            match item.data.request.connector_meta {
                Err(error) => res == Err::<
                    RouterData<PaymentsSyncData, PaymentsResponseData>,
                    ConnectorError,
                >(error),
                Ok(meta) => {
                    let status = attempt_status_intent(item.response.status, meta.psync_flow);
                    &&& res matches Ok(after)
                    &&& after == (RouterData { status, response: after.response, ..item.data })
                    &&& is_payment_answer(
                        after.response,
                        item.response,
                        item.http_code,
                        status,
                        None,
                    )
                },
            },
    {
        let meta = match item.data.request.connector_meta {
            Ok(meta) => meta,
            Err(error) => {
                return Err(error);
            },
        };
        let status = get_attempt_status_intent((item.response.status, meta.psync_flow));
        let response = payment_answer(item.response, item.http_code, status, None);
        Ok(RouterData { status, response, ..item.data })
    }
}

impl vstd::std_specs::convert::TryFromSpecImpl<ResponseRouterData<PaymentsResponse, PaymentsSyncData, PaymentsResponseData>> for RouterData<PaymentsSyncData, PaymentsResponseData> {
    open spec fn obeys_try_from_spec() -> bool {
        false
    }

    open spec fn try_from_spec(item: ResponseRouterData<PaymentsResponse, PaymentsSyncData, PaymentsResponseData>) -> Result<Self, ConnectorError> {
        arbitrary()
    }
}

/// What a redirected customer came back with.
#[derive(Clone, Copy, Debug, PartialEq, Eq, Structural)]
pub enum CheckoutRedirectResponseStatus {
    Success,
    Failure,
}

/// What a redirected customer came back with, and the session that it belongs to.
#[derive(Debug, PartialEq, Eq)]
pub struct CheckoutRedirectResponse {
    pub status: Option<CheckoutRedirectResponseStatus>,
    pub cko_session_id: Option<String>,
}

impl From<CheckoutRedirectResponseStatus> for AttemptStatus {
    fn from(item: CheckoutRedirectResponseStatus) -> (res: Self) {
        match item {
            CheckoutRedirectResponseStatus::Success => Self::AuthenticationSuccessful,
            CheckoutRedirectResponseStatus::Failure => Self::Failure,
        }
    }
}

impl vstd::std_specs::convert::FromSpecImpl<CheckoutRedirectResponseStatus> for AttemptStatus {
    open spec fn obeys_from_spec() -> bool {
        true
    }

    open spec fn from_spec(item: CheckoutRedirectResponseStatus) -> Self {
        match item {
            CheckoutRedirectResponseStatus::Success => AttemptStatus::AuthenticationSuccessful,
            CheckoutRedirectResponseStatus::Failure => AttemptStatus::Failure,
        }
    }
}

/// An error that Checkout reports.
#[derive(Debug, PartialEq, Eq, Default)]
pub struct CheckoutErrorResponse {
    pub request_id: Option<String>,
    pub error_type: Option<String>,
    pub error_codes: Option<Vec<String>>,
}

/// An error by its code and its message.
#[derive(Debug, PartialEq, Eq)]
pub struct ErrorCodeAndMessage {
    pub error_code: String,
    pub error_message: String,
}

impl From<String> for ErrorCodeAndMessage {
    fn from(error: String) -> (res: Self) {
        ErrorCodeAndMessage { error_code: error.clone(), error_message: error }
    }
}

impl vstd::std_specs::convert::FromSpecImpl<String> for ErrorCodeAndMessage {
    open spec fn obeys_from_spec() -> bool {
        true
    }

    open spec fn from_spec(error: String) -> Self {
        ErrorCodeAndMessage { error_code: error, error_message: error }
    }
}

} // verus!
