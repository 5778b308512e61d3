//! Sales at Payme: preparing them and storing buyers.
use vstd::prelude::*;
use crate::enums::{AttemptStatus, AuthenticationType, Currency, MinorUnit, PaymentMethod};
use crate::errors::{ConnectorError, Required, Unimplemented};
use crate::payment_data::{Card, PaymentMethodData, PaymentMethodToken, WalletData};
use crate::router_data::{ApplePayPaymentRequest, ApplepaySessionTokenResponse, ConnectorAuthType, NextActionCall, OrderDetails, PaymentsPreProcessingData, PaymentsPreProcessingRouterData, PaymentsResponseData, PreprocessingResponseId, RedirectForm, RedirectionData, ResponseId, ResponseRouterData, RouterData, TokenizationRouterData};
use crate::secret::Secret;

verus! {

/// The language that Payme talks to the customer in.
pub const LANGUAGE: &'static str = "en";

/// A call of Payme, with the amount in the unit that Payme takes.
pub struct PaymeRouterData<T> {
    pub amount: MinorUnit,
    pub router_data: T,
}

impl<T> TryFrom<(MinorUnit, T)> for PaymeRouterData<T> {
    type Error = ConnectorError;

    fn try_from(value: (MinorUnit, T)) -> (res: Result<Self, ConnectorError>) {
        let (amount, item) = value;
        Ok(PaymeRouterData { amount, router_data: item })
    }
}

impl<T> vstd::std_specs::convert::TryFromSpecImpl<(MinorUnit, T)> for PaymeRouterData<T> {
    open spec fn obeys_try_from_spec() -> bool {
        true
    }

    open spec fn try_from_spec(value: (MinorUnit, T)) -> Result<Self, ConnectorError> {
        Ok(PaymeRouterData { amount: value.0, router_data: value.1 })
    }
}

/// The keys that Payme is used with.
pub struct PaymeAuthType {
    pub payme_public_key: Secret<String>,
    pub seller_payme_id: Secret<String>,
    pub payme_merchant_id: Option<Secret<String>>,
}

/// The keys that Payme is used with, where the merchant gave them.
pub open spec fn payme_auth(auth_type: ConnectorAuthType) -> Result<PaymeAuthType, ConnectorError> {
    match auth_type {
        ConnectorAuthType::BodyKey { api_key, key1 } => Ok(
            PaymeAuthType {
                seller_payme_id: api_key,
                payme_public_key: key1,
                payme_merchant_id: None,
            },
        ),
        ConnectorAuthType::SignatureKey { api_key, key1, api_secret } => Ok(
            PaymeAuthType {
                seller_payme_id: api_key,
                payme_public_key: key1,
                payme_merchant_id: Some(api_secret),
            },
        ),
        _ => Err(ConnectorError::FailedToObtainAuthType),
    }
}

impl<'a> TryFrom<&'a ConnectorAuthType> for PaymeAuthType {
    type Error = ConnectorError;

    fn try_from(auth_type: &'a ConnectorAuthType) -> (res: Result<Self, ConnectorError>) {
        match auth_type {
            ConnectorAuthType::BodyKey { api_key, key1 } => Ok(
                PaymeAuthType {
                    seller_payme_id: api_key.clone(),
                    payme_public_key: key1.clone(),
                    payme_merchant_id: None,
                },
            ),
            ConnectorAuthType::SignatureKey { api_key, key1, api_secret } => Ok(
                PaymeAuthType {
                    seller_payme_id: api_key.clone(),
                    payme_public_key: key1.clone(),
                    payme_merchant_id: Some(api_secret.clone()),
                },
            ),
            _ => Err(ConnectorError::FailedToObtainAuthType),
        }
    }
}

impl<'a> vstd::std_specs::convert::TryFromSpecImpl<&'a ConnectorAuthType> for PaymeAuthType {
    open spec fn obeys_try_from_spec() -> bool {
        true
    }

    open spec fn try_from_spec(auth_type: &'a ConnectorAuthType) -> Result<Self, ConnectorError> {
        payme_auth(*auth_type)
    }
}

/// The seller of a call.
pub open spec fn seller_of(auth_type: ConnectorAuthType) -> Result<Secret<String>, ConnectorError> {
    match payme_auth(auth_type) {
        Ok(auth) => Ok(auth.seller_payme_id),
        Err(error) => Err(error),
    }
}

/// Finds the seller of a call.
pub fn get_seller(auth_type: &ConnectorAuthType) -> (res: Result<Secret<String>, ConnectorError>)
    ensures
        res == seller_of(*auth_type),
{
    match PaymeAuthType::try_from(auth_type) {
        Ok(auth) => Ok(auth.seller_payme_id),
        Err(error) => Err(error),
    }
}

/// The error for a call that must name what is sold and does not.
pub open spec fn no_order_details() -> ConnectorError {
    ConnectorError::MissingRequiredField { field_name: "order_details" }
}

/// The name of the first item that the customer buys.
pub open spec fn first_product(order_details: Required<Vec<OrderDetails>>) -> Result<
    String,
    ConnectorError,
> {
    match order_details {
        Err(error) => Err(error),
        Ok(items) => if items@.len() == 0 {
            Err(no_order_details())
        } else {
            Ok(items@[0].product_name)
        },
    }
}

/// Finds the name of the first item that the customer buys.
pub fn get_first_product(order_details: &Required<Vec<OrderDetails>>) -> (res: Result<
    String,
    ConnectorError,
>)
    ensures
        res == first_product(*order_details),
{
    match order_details {
        Err(error) => Err(*error),
        Ok(items) => {
            if items.len() == 0 {
                Err(ConnectorError::MissingRequiredField { field_name: "order_details" })
            } else {
                Ok(items[0].product_name.clone())
            }
        },
    }
}

/// Copies a text that a request must carry.
pub fn copy_required(value: &Required<String>) -> (res: Required<String>)
    ensures
        res == *value,
{
    match value {
        Ok(text) => Ok(text.clone()),
        Err(error) => Err(*error),
    }
}

/// Copies a secret text that a request must carry.
pub fn copy_required_secret(value: &Required<Secret<String>>) -> (res: Required<Secret<String>>)
    ensures
        res == *value,
{
    match value {
        Ok(secret) => Ok(secret.clone()),
        Err(error) => Err(*error),
    }
}

// ---------------------------------------------------------------------------
// Preparing a sale
// ---------------------------------------------------------------------------

/// What a sale is for.
#[derive(Clone, Copy, Debug, PartialEq, Eq, Structural)]
pub enum SaleType {
    Sale,
    Authorize,
    Token,
}

/// What a sale is for: a token where a mandate is set up, and else what the capture asks
/// for.
pub open spec fn sale_type_of(request: PaymentsPreProcessingData) -> Result<SaleType, ConnectorError> {
    if request.sets_up_mandate {
        Ok(SaleType::Token)
    } else {
        match request.auto_capture {
            Ok(true) => Ok(SaleType::Sale),
            Ok(false) => Ok(SaleType::Authorize),
            Err(error) => Err(error),
        }
    }
}

impl<'a> TryFrom<&'a PaymentsPreProcessingRouterData> for SaleType {
    type Error = ConnectorError;

    fn try_from(value: &'a PaymentsPreProcessingRouterData) -> (res: Result<Self, ConnectorError>) {
        if value.request.sets_up_mandate {
            Ok(SaleType::Token)
        } else {
            match value.request.auto_capture {
                Ok(true) => Ok(SaleType::Sale),
                Ok(false) => Ok(SaleType::Authorize),
                Err(error) => Err(error),
            }
        }
    }
}

impl<'a> vstd::std_specs::convert::TryFromSpecImpl<&'a PaymentsPreProcessingRouterData> for SaleType {
    open spec fn obeys_try_from_spec() -> bool {
        true
    }

    open spec fn try_from_spec(value: &'a PaymentsPreProcessingRouterData) -> Result<Self, ConnectorError> {
        sale_type_of(value.request)
    }
}

/// How a sale is paid.
#[derive(Clone, Copy, Debug, PartialEq, Eq, Structural)]
pub enum SalePaymentMethod {
    CreditCard,
    ApplePay,
}

/// How a sale is paid, where Payme offers it.
pub open spec fn sale_payment_method_of(item: PaymentMethodData) -> Result<
    SalePaymentMethod,
    ConnectorError,
> {
    match item {
        PaymentMethodData::Card(_) => Ok(SalePaymentMethod::CreditCard),
        PaymentMethodData::Wallet(WalletData::ApplePayThirdPartySdk) => Ok(
            SalePaymentMethod::ApplePay,
        ),
        PaymentMethodData::Wallet(_) => Err(
            ConnectorError::NotSupported { message: "Wallet", connector: "payme" },
        ),
        _ => Err(ConnectorError::NotImplemented(Unimplemented::Feature("Payment methods"))),
    }
}

impl<'a> TryFrom<&'a PaymentMethodData> for SalePaymentMethod {
    type Error = ConnectorError;

    fn try_from(item: &'a PaymentMethodData) -> (res: Result<Self, ConnectorError>) {
        match item {
            PaymentMethodData::Card(_) => Ok(SalePaymentMethod::CreditCard),
            PaymentMethodData::Wallet(wallet_data) => match wallet_data {
                WalletData::ApplePayThirdPartySdk => Ok(SalePaymentMethod::ApplePay),
                WalletData::AliPayQr
                | WalletData::AliPayRedirect
                | WalletData::BluecodeRedirect
                | WalletData::AliPayHkRedirect
                | WalletData::AmazonPayRedirect
                | WalletData::Paysera
                | WalletData::Skrill
                | WalletData::MomoRedirect
                | WalletData::KakaoPayRedirect
                | WalletData::GoPayRedirect
                | WalletData::GcashRedirect
                | WalletData::ApplePayRedirect
                | WalletData::DanaRedirect
                | WalletData::GooglePay
                | WalletData::GooglePayRedirect
                | WalletData::GooglePayThirdPartySdk
                | WalletData::MbWayRedirect
                | WalletData::MobilePayRedirect
                | WalletData::PaypalRedirect
                | WalletData::PaypalSdk
                | WalletData::Paze
                | WalletData::SamsungPay
                | WalletData::TwintRedirect
                | WalletData::VippsRedirect
                | WalletData::TouchNGoRedirect
                | WalletData::WeChatPayRedirect
                | WalletData::WeChatPayQr
                | WalletData::CashappQr
                | WalletData::ApplePay
                | WalletData::SwishQr
                | WalletData::Mifinity
                | WalletData::RevolutPay => Err(
                    ConnectorError::NotSupported { message: "Wallet", connector: "payme" },
                ),
            },
            PaymentMethodData::PayLater
            | PaymentMethodData::BankRedirect
            | PaymentMethodData::BankDebit
            | PaymentMethodData::BankTransfer
            | PaymentMethodData::Crypto
            | PaymentMethodData::MandatePayment
            | PaymentMethodData::Reward
            | PaymentMethodData::RealTimePayment
            | PaymentMethodData::MobilePayment
            | PaymentMethodData::GiftCard
            | PaymentMethodData::CardRedirect
            | PaymentMethodData::Upi
            | PaymentMethodData::Voucher
            | PaymentMethodData::OpenBanking
            | PaymentMethodData::CardToken
            | PaymentMethodData::NetworkToken
            | PaymentMethodData::CardDetailsForNetworkTransactionId => Err(
                ConnectorError::NotImplemented(Unimplemented::Feature("Payment methods")),
            ),
        }
    }
}

impl<'a> vstd::std_specs::convert::TryFromSpecImpl<&'a PaymentMethodData> for SalePaymentMethod {
    open spec fn obeys_try_from_spec() -> bool {
        true
    }

    open spec fn try_from_spec(item: &'a PaymentMethodData) -> Result<Self, ConnectorError> {
        sale_payment_method_of(*item)
    }
}

/// A service that Payme adds to a sale.
#[derive(Clone, Copy, Debug, PartialEq, Eq, Structural)]
pub enum ThreeDsType {
    ThreeDs,
}

/// How an added service is set.
#[derive(Clone, Copy, Debug, PartialEq, Eq, Structural)]
pub struct ThreeDsSettings {
    pub active: bool,
}

/// An added service and how it is set.
#[derive(Clone, Copy, Debug, PartialEq, Eq, Structural)]
pub struct ThreeDs {
    pub name: ThreeDsType,
    pub settings: ThreeDsSettings,
}

/// The services that are added to a sale.
pub open spec fn services_of(auth_type: AuthenticationType) -> Option<ThreeDs> {
    match auth_type {
        AuthenticationType::ThreeDs => Some(
            ThreeDs { name: ThreeDsType::ThreeDs, settings: ThreeDsSettings { active: true } },
        ),
        AuthenticationType::NoThreeDs => None,
    }
}

/// Finds the services that are added to a sale.
pub fn get_services(item: &PaymentsPreProcessingRouterData) -> (res: Option<ThreeDs>)
    ensures
        res == services_of(item.auth_type),
{
    match item.auth_type {
        AuthenticationType::ThreeDs => {
            let settings = ThreeDsSettings { active: true };
            Some(ThreeDs { name: ThreeDsType::ThreeDs, settings })
        },
        AuthenticationType::NoThreeDs => None,
    }
}

/// A request to prepare a sale.
pub struct GenerateSaleRequest {
    pub currency: Currency,
    pub sale_type: SaleType,
    pub sale_price: MinorUnit,
    pub transaction_id: String,
    pub product_name: String,
    pub sale_return_url: String,
    pub seller_payme_id: Secret<String>,
    pub sale_callback_url: String,
    pub sale_payment_method: SalePaymentMethod,
    pub services: Option<ThreeDs>,
    pub language: String,
}

/// Why a sale cannot be prepared, in the order in which it is found out.
pub open spec fn generate_sale_error(item: PaymentsPreProcessingRouterData) -> Option<ConnectorError> {
    let request = item.request;
    let before_method = crate::errors::first_of(
        crate::errors::first_of(
            crate::errors::first_of(
                crate::errors::error_of(sale_type_of(request)),
                crate::errors::error_of(seller_of(item.connector_auth_type)),
            ),
            crate::errors::error_of(first_product(request.order_details)),
        ),
        crate::errors::missing(
            request.payment_method_data,
            ConnectorError::MissingRequiredField { field_name: "payment_method_data" },
        ),
    );
    let method_error = match request.payment_method_data {
        Some(data) => crate::errors::error_of(sale_payment_method_of(data)),
        None => None,
    };
    crate::errors::first_of(
        crate::errors::first_of(
            crate::errors::first_of(
                crate::errors::first_of(before_method, crate::errors::error_of(request.currency)),
                method_error,
            ),
            crate::errors::error_of(request.router_return_url),
        ),
        crate::errors::error_of(request.webhook_url),
    )
}

impl<'a, 'b> TryFrom<&'a PaymeRouterData<&'b PaymentsPreProcessingRouterData>> for GenerateSaleRequest {
    type Error = ConnectorError;

    fn try_from(item: &'a PaymeRouterData<&'b PaymentsPreProcessingRouterData>) -> (res: Result<Self, ConnectorError>)
        ensures
            match generate_sale_error(*item.router_data) {
                Some(error) => res == Err::<GenerateSaleRequest, ConnectorError>(error),
                None => {
                    let request = item.router_data.request;
                    &&& res matches Ok(sale)
                    &&& request.currency == Ok::<Currency, ConnectorError>(sale.currency)
                    &&& sale_type_of(request) == Ok::<SaleType, ConnectorError>(sale.sale_type)
                    &&& sale.sale_price == item.amount
                    &&& sale.transaction_id == item.router_data.payment_id
                    &&& first_product(request.order_details) == Ok::<String, ConnectorError>(
                        sale.product_name,
                    )
                    &&& request.router_return_url == Ok::<String, ConnectorError>(
                        sale.sale_return_url,
                    )
                    &&& seller_of(item.router_data.connector_auth_type) == Ok::<
                        Secret<String>,
                        ConnectorError,
                    >(sale.seller_payme_id)
                    &&& request.webhook_url == Ok::<String, ConnectorError>(sale.sale_callback_url)
                    &&& sale_payment_method_of(request.payment_method_data->0) == Ok::<
                        SalePaymentMethod,
                        ConnectorError,
                    >(sale.sale_payment_method)
                    &&& sale.services == services_of(item.router_data.auth_type)
                    &&& sale.language@ == LANGUAGE@
                },
            },
    {
        let sale_type = match SaleType::try_from(item.router_data) {
            Ok(sale_type) => sale_type,
            Err(error) => {
                return Err(error);
            },
        };
        let seller_payme_id = match get_seller(&item.router_data.connector_auth_type) {
            Ok(seller) => seller,
            Err(error) => {
                return Err(error);
            },
        };
        let product_name = match get_first_product(&item.router_data.request.order_details) {
            Ok(name) => name,
            Err(error) => {
                return Err(error);
            },
        };
        let services = get_services(item.router_data);
        let payment_method_data = match &item.router_data.request.payment_method_data {
            Some(data) => data,
            None => {
                return Err(
                    ConnectorError::MissingRequiredField { field_name: "payment_method_data" },
                );
            },
        };
        let currency = match &item.router_data.request.currency {
            Ok(currency) => currency.clone(),
            Err(error) => {
                return Err(*error);
            },
        };
        let sale_payment_method = match SalePaymentMethod::try_from(payment_method_data) {
            Ok(method) => method,
            Err(error) => {
                return Err(error);
            },
        };
        let sale_return_url = match copy_required(&item.router_data.request.router_return_url) {
            Ok(url) => url,
            Err(error) => {
                return Err(error);
            },
        };
        let sale_callback_url = match copy_required(&item.router_data.request.webhook_url) {
            Ok(url) => url,
            Err(error) => {
                return Err(error);
            },
        };
        Ok(
            GenerateSaleRequest {
                seller_payme_id,
                sale_price: item.amount,
                currency,
                product_name,
                sale_payment_method,
                sale_type,
                transaction_id: item.router_data.payment_id.clone(),
                sale_return_url,
                sale_callback_url,
                language: LANGUAGE.to_string(),
                services,
            },
        )
    }
}

impl<'a, 'b> vstd::std_specs::convert::TryFromSpecImpl<&'a PaymeRouterData<&'b PaymentsPreProcessingRouterData>> for GenerateSaleRequest {
    open spec fn obeys_try_from_spec() -> bool {
        false
    }

    open spec fn try_from_spec(item: &'a PaymeRouterData<&'b PaymentsPreProcessingRouterData>) -> Result<Self, ConnectorError> {
        arbitrary()
    }
}

/// The answer to a request to prepare a sale.
#[derive(Debug, PartialEq, Eq)]
pub struct GenerateSaleResponse {
    pub payme_sale_id: String,
}

/// The data of a sale that goes on without the customer being redirected.
pub open spec fn prepared_sale(
    data: PaymentsPreProcessingRouterData,
    payme_sale_id: String,
    session_token: Option<ApplepaySessionTokenResponse>,
) -> PaymentsPreProcessingRouterData {
    RouterData {
        status: AttemptStatus::Pending,
        preprocessing_id: Some(payme_sale_id),
        response: Ok(
            PaymentsResponseData::PreProcessingResponse {
                pre_processing_id: PreprocessingResponseId::ConnectorTransactionId(payme_sale_id),
                connector_metadata: None,
                session_token,
                connector_response_reference_id: None,
            },
        ),
        ..data
    }
}

/// The data of a card sale for which the customer is redirected.
pub open spec fn redirected_sale(
    data: PaymentsPreProcessingRouterData,
    payme_sale_id: String,
) -> PaymentsPreProcessingRouterData {
    RouterData {
        status: AttemptStatus::AuthenticationPending,
        preprocessing_id: Some(payme_sale_id),
        response: Ok(
            PaymentsResponseData::TransactionResponse {
                resource_id: ResponseId::ConnectorTransactionId(payme_sale_id),
                redirection_data: Some(RedirectionData::Page(RedirectForm::Payme)),
                mandate_reference: None,
                connector_metadata: None,
                network_txn_id: None,
                connector_response_reference_id: None,
                incremental_authorization_allowed: None,
            },
        ),
        ..data
    }
}

/// Whether a sale is paid by Apple Pay on the customer's device.
pub open spec fn by_apple_pay(request: PaymentsPreProcessingData) -> bool {
    request.payment_method_data matches Some(
        PaymentMethodData::Wallet(WalletData::ApplePayThirdPartySdk),
    )
}

/// Why a sale that is not by card cannot go on.
pub open spec fn session_error(data: PaymentsPreProcessingRouterData) -> Option<ConnectorError> {
    crate::errors::first_of(
        crate::errors::first_of(
            crate::errors::error_of(data.request.currency),
            crate::errors::error_of(payme_auth(data.connector_auth_type)),
        ),
        if by_apple_pay(data.request) {
            crate::errors::error_of(data.billing.country)
        } else {
            None
        },
    )
}

/// Whether a token lets the customer's device show Apple Pay for a sale.
pub open spec fn is_session_for(
    token: ApplepaySessionTokenResponse,
    data: PaymentsPreProcessingRouterData,
    payme_sale_id: String,
    apple_pay_amount: String,
) -> bool {
    let auth = payme_auth(data.connector_auth_type)->Ok_0;
    &&& token.no_session_response
    &&& token.payment_request_data matches Some(request)
    &&& data.billing.country == Ok::<String, ConnectorError>(request.country_code)
    &&& data.request.currency == Ok::<Currency, ConnectorError>(request.currency_code)
    &&& request.label@ == "Apple Pay"@
    &&& request.amount == apple_pay_amount
    &&& token.connector@ == "payme"@
    &&& token.delayed_session_token
    &&& token.next_action == NextActionCall::Sync
    &&& token.connector_reference_id == Some(payme_sale_id)
    &&& token.connector_sdk_public_key == Some(auth.payme_public_key.inner_secret)
    &&& token.connector_merchant_id == (match auth.payme_merchant_id {
        Some(id) => Some(id.inner_secret),
        None => None,
    })
}

/// A prepared sale and what came of it: the data, or the error that it ended in.
pub type PreparedSale = Result<PaymentsPreProcessingRouterData, ConnectorError>;

impl RouterData<PaymentsPreProcessingData, PaymentsResponseData> {
    /// Takes over the answer to a request to prepare a sale. `apple_pay_amount` is the
    /// amount that Apple Pay shows.
    pub fn foreign_try_from(
        value: (
            ResponseRouterData<GenerateSaleResponse, PaymentsPreProcessingData, PaymentsResponseData>,
            String,
        ),
    ) -> (res: Result<Self, ConnectorError>)
        ensures
            match (value.0.data.payment_method, value.0.data.auth_type) {
                (PaymentMethod::Card, AuthenticationType::NoThreeDs) => res == PreparedSale::Ok(
                    prepared_sale(value.0.data, value.0.response.payme_sale_id, None),
                ),
                (PaymentMethod::Card, AuthenticationType::ThreeDs) => res == PreparedSale::Ok(
                    redirected_sale(value.0.data, value.0.response.payme_sale_id),
                ),
                _ => match session_error(value.0.data) {
                    Some(error) => res == PreparedSale::Err(error),
                    None => if by_apple_pay(value.0.data.request) {
                        exists|token: ApplepaySessionTokenResponse|
                            {
                                &&& #[trigger] is_session_for(
                                    token,
                                    value.0.data,
                                    value.0.response.payme_sale_id,
                                    value.1,
                                )
                                &&& res == PreparedSale::Ok(
                                    prepared_sale(
                                        value.0.data,
                                        value.0.response.payme_sale_id,
                                        Some(token),
                                    ),
                                )
                            }
                    } else {
                        res == PreparedSale::Ok(
                            prepared_sale(value.0.data, value.0.response.payme_sale_id, None),
                        )
                    },
                },
            },
    {
        let (item, apple_pay_amount) = value;
        let payme_sale_id = item.response.payme_sale_id;
        let data = item.data;
        if let PaymentMethod::Card = data.payment_method {
            return match data.auth_type {
                // Payme tells no status at this point; the payment goes on to be authorized.
                AuthenticationType::NoThreeDs => Ok(
                    RouterData {
                        status: AttemptStatus::Pending,
                        preprocessing_id: Some(payme_sale_id.clone()),
                        response: Ok(
                            PaymentsResponseData::PreProcessingResponse {
                                pre_processing_id: PreprocessingResponseId::ConnectorTransactionId(
                                    payme_sale_id,
                                ),
                                connector_metadata: None,
                                session_token: None,
                                connector_response_reference_id: None,
                            },
                        ),
                        ..data
                    },
                ),
                // The customer is redirected before the payment is authorized.
                AuthenticationType::ThreeDs => Ok(
                    RouterData {
                        status: AttemptStatus::AuthenticationPending,
                        preprocessing_id: Some(payme_sale_id.clone()),
                        response: Ok(
                            PaymentsResponseData::TransactionResponse {
                                resource_id: ResponseId::ConnectorTransactionId(payme_sale_id),
                                redirection_data: Some(RedirectionData::Page(RedirectForm::Payme)),
                                mandate_reference: None,
                                connector_metadata: None,
                                network_txn_id: None,
                                connector_response_reference_id: None,
                                incremental_authorization_allowed: None,
                            },
                        ),
                        ..data
                    },
                ),
            };
        }
        let currency_code = match &data.request.currency {
            Ok(currency) => currency.clone(),
            Err(error) => {
                return Err(*error);
            },
        };
        let auth = match PaymeAuthType::try_from(&data.connector_auth_type) {
            Ok(auth) => auth,
            Err(error) => {
                return Err(error);
            },
        };
        let session_token = match &data.request.payment_method_data {
            Some(PaymentMethodData::Wallet(WalletData::ApplePayThirdPartySdk)) => {
                let country_code = match copy_required(&data.billing.country) {
                    Ok(country) => country,
                    Err(error) => {
                        return Err(error);
                    },
                };
                let token = ApplepaySessionTokenResponse {
                    no_session_response: true,
                    payment_request_data: Some(
                        ApplePayPaymentRequest {
                            country_code,
                            currency_code,
                            label: "Apple Pay".to_string(),
                            amount: apple_pay_amount,
                        },
                    ),
                    connector: "payme".to_string(),
                    delayed_session_token: true,
                    next_action: NextActionCall::Sync,
                    connector_reference_id: Some(payme_sale_id.clone()),
                    connector_sdk_public_key: Some(auth.payme_public_key.expose()),
                    connector_merchant_id: match auth.payme_merchant_id {
                        Some(id) => Some(id.expose()),
                        None => None,
                    },
                };
                assert(is_session_for(token, value.0.data, payme_sale_id, value.1));
                Some(token)
            },
            _ => None,
        };
        Ok(
            RouterData {
                status: AttemptStatus::Pending,
                preprocessing_id: Some(payme_sale_id.clone()),
                response: Ok(
                    PaymentsResponseData::PreProcessingResponse {
                        pre_processing_id: PreprocessingResponseId::ConnectorTransactionId(
                            payme_sale_id,
                        ),
                        connector_metadata: None,
                        session_token,
                        connector_response_reference_id: None,
                    },
                ),
                ..data
            },
        )
    }
}

// ---------------------------------------------------------------------------
// Storing a buyer
// ---------------------------------------------------------------------------

/// A card as Payme takes it.
pub struct PaymeCard {
    pub credit_card_cvv: Secret<String>,
    pub credit_card_exp: Secret<String>,
    pub credit_card_number: Secret<String>,
}

/// A card as Payme takes it, where its expiry can be written.
pub open spec fn payme_card(card: Card) -> Result<PaymeCard, ConnectorError> {
    match card.expiry_month_year {
        Err(error) => Err(error),
        Ok(expiry) => Ok(
            PaymeCard {
                credit_card_cvv: card.card_cvc,
                credit_card_exp: expiry,
                credit_card_number: card.card_number,
            },
        ),
    }
}

/// Makes a card ready for Payme.
pub fn get_payme_card(card: &Card) -> (res: Result<PaymeCard, ConnectorError>)
    ensures
        res == payme_card(*card),
{
    match &card.expiry_month_year {
        Err(error) => Err(*error),
        Ok(expiry) => Ok(
            PaymeCard {
                credit_card_cvv: card.card_cvc.clone(),
                credit_card_exp: expiry.clone(),
                credit_card_number: card.card_number.clone(),
            },
        ),
    }
}

/// A request to store a buyer.
pub struct CaptureBuyerRequest {
    pub seller_payme_id: Secret<String>,
    pub card: PaymeCard,
}

/// The error for a payment method that cannot be stored.
pub open spec fn cannot_tokenize() -> ConnectorError {
    ConnectorError::NotImplemented(Unimplemented::Feature("Tokenize Flow"))
}

impl<'a> TryFrom<&'a TokenizationRouterData> for CaptureBuyerRequest {
    type Error = ConnectorError;

    fn try_from(item: &'a TokenizationRouterData) -> (res: Result<Self, ConnectorError>) {
        match &item.request.payment_method_data {
            PaymentMethodData::Card(req_card) => {
                let seller_payme_id = match get_seller(&item.connector_auth_type) {
                    Ok(seller) => seller,
                    Err(error) => {
                        return Err(error);
                    },
                };
                match get_payme_card(req_card) {
                    Ok(card) => Ok(CaptureBuyerRequest { seller_payme_id, card }),
                    Err(error) => Err(error),
                }
            },
            PaymentMethodData::Wallet(_)
            | PaymentMethodData::CardRedirect
            | PaymentMethodData::PayLater
            | PaymentMethodData::BankRedirect
            | PaymentMethodData::BankDebit
            | PaymentMethodData::BankTransfer
            | PaymentMethodData::Crypto
            | PaymentMethodData::MandatePayment
            | PaymentMethodData::Reward
            | PaymentMethodData::RealTimePayment
            | PaymentMethodData::MobilePayment
            | PaymentMethodData::Upi
            | PaymentMethodData::Voucher
            | PaymentMethodData::GiftCard
            | PaymentMethodData::OpenBanking
            | PaymentMethodData::CardToken
            | PaymentMethodData::NetworkToken
            | PaymentMethodData::CardDetailsForNetworkTransactionId => Err(
                ConnectorError::NotImplemented(Unimplemented::Feature("Tokenize Flow")),
            ),
        }
    }
}

impl<'a> vstd::std_specs::convert::TryFromSpecImpl<&'a TokenizationRouterData> for CaptureBuyerRequest {
    open spec fn obeys_try_from_spec() -> bool {
        true
    }

    open spec fn try_from_spec(item: &'a TokenizationRouterData) -> Result<Self, ConnectorError> {
        match item.request.payment_method_data {
            PaymentMethodData::Card(req_card) => match (
                seller_of(item.connector_auth_type),
                payme_card(req_card),
            ) {
                (Err(error), _) => Err(error),
                (Ok(_), Err(error)) => Err(error),
                (Ok(seller_payme_id), Ok(card)) => Ok(
                    CaptureBuyerRequest { seller_payme_id, card },
                ),
            },
            _ => Err(cannot_tokenize()),
        }
    }
}

/// The answer to a request to store a buyer.
pub struct CaptureBuyerResponse {
    pub buyer_key: Secret<String>,
}

impl<T> TryFrom<ResponseRouterData<CaptureBuyerResponse, T, PaymentsResponseData>> for RouterData<T, PaymentsResponseData> {
    type Error = ConnectorError;

    fn try_from(item: ResponseRouterData<CaptureBuyerResponse, T, PaymentsResponseData>) -> (res: Result<Self, ConnectorError>) {
        Ok(
            RouterData {
                payment_method_token: Some(
                    PaymentMethodToken::Token(item.response.buyer_key.clone()),
                ),
                response: Ok(
                    PaymentsResponseData::TokenizationResponse {
                        token: item.response.buyer_key.expose(),
                    },
                ),
                ..item.data
            },
        )
    }
}

impl<T> vstd::std_specs::convert::TryFromSpecImpl<ResponseRouterData<CaptureBuyerResponse, T, PaymentsResponseData>> for RouterData<T, PaymentsResponseData> {
    open spec fn obeys_try_from_spec() -> bool {
        true
    }

    open spec fn try_from_spec(item: ResponseRouterData<CaptureBuyerResponse, T, PaymentsResponseData>) -> Result<Self, ConnectorError> {
        Ok(
            RouterData {
                payment_method_token: Some(PaymentMethodToken::Token(item.response.buyer_key)),
                response: Ok(
                    PaymentsResponseData::TokenizationResponse {
                        token: item.response.buyer_key.inner_secret,
                    },
                ),
                ..item.data
            },
        )
    }
}

} // verus!
