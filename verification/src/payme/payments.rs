//! Payments at Payme.
use vstd::prelude::*;
use crate::consts::{NO_ERROR_CODE, NO_ERROR_MESSAGE};
use crate::enums::{is_payment_failure, AttemptStatus, Currency, Method, MinorUnit};
use crate::errors::{ConnectorError, Unimplemented};
use crate::payme::sales::{copy_required, copy_required_secret, get_first_product, get_payme_card, get_seller, PaymeCard, PaymeRouterData, LANGUAGE};
use crate::payment_data::{PaymentMethodData, PaymentMethodToken};
use crate::router_data::{ErrorResponse, MandateReference, PaymentsAuthorizeRouterData, PaymentsCancelData, PaymentsCancelRouterData, PaymentsCaptureRouterData, PaymentsCompleteAuthorizeRouterData, PaymentsResponseData, PaymentsSyncRouterData, RedirectForm, RedirectionData, ResponseId, ResponseRouterData, RouterData};
use crate::secret::{clone_optional_secret, Secret};
use crate::text::{clone_optional, render_u128};
use crate::web_url::WebUrl;

verus! {

// ---------------------------------------------------------------------------
// The requests
// ---------------------------------------------------------------------------

/// A request to pay a prepared sale.
pub struct PayRequest {
    pub buyer_name: Secret<String>,
    pub buyer_email: Secret<String>,
    pub payme_sale_id: String,
    pub card: PaymeCard,
    pub language: String,
}

/// A request to pay under a mandate.
pub struct MandateRequest {
    pub currency: Currency,
    pub sale_price: MinorUnit,
    pub transaction_id: String,
    pub product_name: String,
    pub sale_return_url: String,
    pub seller_payme_id: Secret<String>,
    pub sale_callback_url: String,
    pub buyer_key: Secret<String>,
    pub language: String,
}

/// A request to pay a prepared sale after the customer was redirected.
pub struct Pay3dsRequest {
    pub buyer_name: Secret<String>,
    pub buyer_email: Secret<String>,
    pub buyer_key: Secret<String>,
    pub payme_sale_id: String,
    pub meta_data_jwt: Secret<String>,
}

/// A request to pay.
pub enum PaymePaymentRequest {
    MandateRequest(MandateRequest),
    PayRequest(PayRequest),
}

/// Why a payment under a mandate cannot be requested, in the order in which it is found
/// out.
pub open spec fn mandate_error(item: PaymentsAuthorizeRouterData) -> Option<ConnectorError> {
    crate::errors::first_of(
        crate::errors::first_of(
            crate::errors::first_of(
                crate::errors::first_of(
                    crate::errors::error_of(
                        crate::payme::sales::seller_of(item.connector_auth_type),
                    ),
                    crate::errors::error_of(
                        crate::payme::sales::first_product(item.request.order_details),
                    ),
                ),
                crate::errors::missing(
                    item.request.router_return_url,
                    crate::router_data::no_return_url(),
                ),
            ),
            crate::errors::error_of(item.request.webhook_url),
        ),
        crate::errors::error_of(item.request.connector_mandate_id),
    )
}

/// Whether a request asks for a payment under its mandate.
pub open spec fn is_mandate_request(
    request: MandateRequest,
    amount: MinorUnit,
    item: PaymentsAuthorizeRouterData,
) -> bool {
    &&& request.currency == item.request.currency
    &&& request.sale_price == amount
    &&& request.transaction_id == item.payment_id
    &&& crate::payme::sales::first_product(item.request.order_details) == Ok::<
        String,
        ConnectorError,
    >(request.product_name)
    &&& item.request.router_return_url == Some(request.sale_return_url)
    &&& crate::payme::sales::seller_of(item.connector_auth_type) == Ok::<
        Secret<String>,
        ConnectorError,
    >(request.seller_payme_id)
    &&& item.request.webhook_url == Ok::<String, ConnectorError>(request.sale_callback_url)
    &&& item.request.connector_mandate_id == Ok::<String, ConnectorError>(
        request.buyer_key.inner_secret,
    )
    &&& request.language@ == LANGUAGE@
}

impl<'a, 'b> TryFrom<&'a PaymeRouterData<&'b PaymentsAuthorizeRouterData>> for MandateRequest {
    type Error = ConnectorError;

    fn try_from(item: &'a PaymeRouterData<&'b PaymentsAuthorizeRouterData>) -> (res: Result<Self, ConnectorError>)
        ensures
            match mandate_error(*item.router_data) {
                Some(error) => res == Err::<MandateRequest, ConnectorError>(error),
                None => res matches Ok(request) && is_mandate_request(
                    request,
                    item.amount,
                    *item.router_data,
                ),
            },
    {
        let seller_payme_id = match get_seller(&item.router_data.connector_auth_type) {
            Ok(seller) => seller,
            Err(error) => {
                return Err(error);
            },
        };
        let product_name = match get_first_product(&item.router_data.request.order_details) {
            Ok(name) => name,
            Err(error) => {
                return Err(error);
            },
        };
        let sale_return_url = match item.router_data.request.get_router_return_url() {
            Ok(url) => url,
            Err(error) => {
                return Err(error);
            },
        };
        let sale_callback_url = match copy_required(&item.router_data.request.webhook_url) {
            Ok(url) => url,
            Err(error) => {
                return Err(error);
            },
        };
        let buyer_key = match copy_required(&item.router_data.request.connector_mandate_id) {
            Ok(id) => Secret::new(id),
            Err(error) => {
                return Err(error);
            },
        };
        Ok(
            MandateRequest {
                currency: item.router_data.request.currency.clone(),
                sale_price: item.amount,
                transaction_id: item.router_data.payment_id.clone(),
                product_name,
                sale_return_url,
                seller_payme_id,
                sale_callback_url,
                buyer_key,
                language: LANGUAGE.to_string(),
            },
        )
    }
}

impl<'a, 'b> vstd::std_specs::convert::TryFromSpecImpl<&'a PaymeRouterData<&'b PaymentsAuthorizeRouterData>> for MandateRequest {
    open spec fn obeys_try_from_spec() -> bool {
        false
    }

    open spec fn try_from_spec(item: &'a PaymeRouterData<&'b PaymentsAuthorizeRouterData>) -> Result<Self, ConnectorError> {
        arbitrary()
    }
}

/// The error for a payment of a sale that was not prepared.
pub open spec fn no_prepared_sale() -> ConnectorError {
    ConnectorError::MissingConnectorRelatedTransactionID { id: "payme_sale_id" }
}

/// Why a payment of a prepared sale cannot be requested, in the order in which it is found
/// out.
pub open spec fn pay_error(item: PaymentsAuthorizeRouterData) -> Option<ConnectorError> {
    match item.request.payment_method_data {
        PaymentMethodData::Card(card) => crate::errors::first_of(
            crate::errors::first_of(
                crate::errors::first_of(
                    crate::errors::error_of(card.expiry_month_year),
                    crate::errors::error_of(item.request.email),
                ),
                crate::errors::error_of(item.billing.full_name),
            ),
            crate::errors::missing(item.preprocessing_id, no_prepared_sale()),
        ),
        _ => Some(
            ConnectorError::NotImplemented(
                Unimplemented::SelectedPaymentMethod { connector: "payme" },
            ),
        ),
    }
}

/// Whether a request asks for the payment of its prepared sale.
pub open spec fn is_pay_request(request: PayRequest, item: PaymentsAuthorizeRouterData) -> bool {
    &&& item.request.payment_method_data matches PaymentMethodData::Card(card)
    &&& crate::payme::sales::payme_card(card) == Ok::<PaymeCard, ConnectorError>(request.card)
    &&& item.request.email == Ok::<Secret<String>, ConnectorError>(request.buyer_email)
    &&& item.billing.full_name == Ok::<Secret<String>, ConnectorError>(request.buyer_name)
    &&& item.preprocessing_id == Some(request.payme_sale_id)
    &&& request.language@ == LANGUAGE@
}

impl<'a> TryFrom<&'a PaymentsAuthorizeRouterData> for PayRequest {
    type Error = ConnectorError;

    fn try_from(item: &'a PaymentsAuthorizeRouterData) -> (res: Result<Self, ConnectorError>)
        ensures
            match pay_error(*item) {
                Some(error) => res == Err::<PayRequest, ConnectorError>(error),
                None => res matches Ok(request) && is_pay_request(request, *item),
            },
    {
        match &item.request.payment_method_data {
            PaymentMethodData::Card(req_card) => {
                let card = match get_payme_card(req_card) {
                    Ok(card) => card,
                    Err(error) => {
                        return Err(error);
                    },
                };
                let buyer_email = match copy_required_secret(&item.request.email) {
                    Ok(email) => email,
                    Err(error) => {
                        return Err(error);
                    },
                };
                let buyer_name = match copy_required_secret(&item.billing.full_name) {
                    Ok(name) => name,
                    Err(error) => {
                        return Err(error);
                    },
                };
                match &item.preprocessing_id {
                    None => Err(
                        ConnectorError::MissingConnectorRelatedTransactionID {
                            id: "payme_sale_id",
                        },
                    ),
                    Some(payme_sale_id) => Ok(
                        PayRequest {
                            card,
                            buyer_email,
                            buyer_name,
                            payme_sale_id: payme_sale_id.clone(),
                            language: LANGUAGE.to_string(),
                        },
                    ),
                }
            },
            PaymentMethodData::CardRedirect
            | PaymentMethodData::Wallet(_)
            | PaymentMethodData::PayLater
            | PaymentMethodData::BankRedirect
            | PaymentMethodData::BankDebit
            | PaymentMethodData::BankTransfer
            | PaymentMethodData::Crypto
            | PaymentMethodData::MandatePayment
            | PaymentMethodData::Reward
            | PaymentMethodData::RealTimePayment
            | PaymentMethodData::MobilePayment
            | PaymentMethodData::Upi
            | PaymentMethodData::Voucher
            | PaymentMethodData::GiftCard
            | PaymentMethodData::OpenBanking
            | PaymentMethodData::CardToken
            | PaymentMethodData::NetworkToken
            | PaymentMethodData::CardDetailsForNetworkTransactionId => Err(
                ConnectorError::NotImplemented(
                    Unimplemented::SelectedPaymentMethod { connector: "payme" },
                ),
            ),
        }
    }
}

impl<'a> vstd::std_specs::convert::TryFromSpecImpl<&'a PaymentsAuthorizeRouterData> for PayRequest {
    open spec fn obeys_try_from_spec() -> bool {
        false
    }

    open spec fn try_from_spec(item: &'a PaymentsAuthorizeRouterData) -> Result<Self, ConnectorError> {
        arbitrary()
    }
}

impl<'a, 'b> TryFrom<&'a PaymeRouterData<&'b PaymentsAuthorizeRouterData>> for PaymePaymentRequest {
    type Error = ConnectorError;

    fn try_from(value: &'a PaymeRouterData<&'b PaymentsAuthorizeRouterData>) -> (res: Result<Self, ConnectorError>)
        ensures
            if value.router_data.request.has_mandate {
                match mandate_error(*value.router_data) {
                    Some(error) => res == Err::<PaymePaymentRequest, ConnectorError>(error),
                    None => {
                        &&& res matches Ok(PaymePaymentRequest::MandateRequest(request))
                        &&& is_mandate_request(request, value.amount, *value.router_data)
                    },
                }
            } else {
                match pay_error(*value.router_data) {
                    Some(error) => res == Err::<PaymePaymentRequest, ConnectorError>(error),
                    None => {
                        &&& res matches Ok(PaymePaymentRequest::PayRequest(request))
                        &&& is_pay_request(request, *value.router_data)
                    },
                }
            },
    {
        if value.router_data.request.has_mandate {
            match MandateRequest::try_from(value) {
                Ok(request) => Ok(PaymePaymentRequest::MandateRequest(request)),
                Err(error) => Err(error),
            }
        } else {
            match PayRequest::try_from(value.router_data) {
                Ok(request) => Ok(PaymePaymentRequest::PayRequest(request)),
                Err(error) => Err(error),
            }
        }
    }
}

impl<'a, 'b> vstd::std_specs::convert::TryFromSpecImpl<&'a PaymeRouterData<&'b PaymentsAuthorizeRouterData>> for PaymePaymentRequest {
    open spec fn obeys_try_from_spec() -> bool {
        false
    }

    open spec fn try_from_spec(value: &'a PaymeRouterData<&'b PaymentsAuthorizeRouterData>) -> Result<Self, ConnectorError> {
        arbitrary()
    }
}

/// What the customer came back with.
#[derive(Debug, PartialEq, Eq)]
pub struct PaymeRedirectResponseData {
    pub meta_data: String,
}

/// The error for a kind of token that Payme does not take.
pub open spec fn token_not_taken(
    payment_method: &'static str,
    flow: Option<&'static str>,
) -> ConnectorError {
    ConnectorError::NotImplemented(
        Unimplemented::PaymentMethod { payment_method, flow, connector: "Payme" },
    )
}

/// The token of a stored buyer.
pub open spec fn buyer_token(token: Option<PaymentMethodToken>) -> Result<
    Secret<String>,
    ConnectorError,
> {
    match token {
        None => Err(crate::router_data::no_payment_method_token()),
        Some(PaymentMethodToken::Token(token)) => Ok(token),
        Some(PaymentMethodToken::ApplePayDecrypt(_)) => Err(
            token_not_taken("Apple Pay", Some("Simplified")),
        ),
        Some(PaymentMethodToken::PazeDecrypt) => Err(token_not_taken("Paze", None)),
        Some(PaymentMethodToken::GooglePayDecrypt) => Err(token_not_taken("Google Pay", None)),
    }
}

fn get_buyer_token(item: &PaymentsCompleteAuthorizeRouterData) -> (res: Result<
    Secret<String>,
    ConnectorError,
>)
    ensures
        res == buyer_token(item.payment_method_token),
{
    match item.get_payment_method_token() {
        Err(error) => Err(error),
        Ok(PaymentMethodToken::Token(token)) => Ok(token.clone()),
        Ok(PaymentMethodToken::ApplePayDecrypt(_)) => Err(
            ConnectorError::NotImplemented(
                Unimplemented::PaymentMethod {
                    payment_method: "Apple Pay",
                    flow: Some("Simplified"),
                    connector: "Payme",
                },
            ),
        ),
        Ok(PaymentMethodToken::PazeDecrypt) => Err(
            ConnectorError::NotImplemented(
                Unimplemented::PaymentMethod {
                    payment_method: "Paze",
                    flow: None,
                    connector: "Payme",
                },
            ),
        ),
        Ok(PaymentMethodToken::GooglePayDecrypt) => Err(
            ConnectorError::NotImplemented(
                Unimplemented::PaymentMethod {
                    payment_method: "Google Pay",
                    flow: None,
                    connector: "Payme",
                },
            ),
        ),
    }
}

/// Why a payment cannot be requested after the customer came back, in the order in which
/// it is found out.
pub open spec fn pay_3ds_error(
    item: PaymentsCompleteAuthorizeRouterData,
    decoded: Option<PaymeRedirectResponseData>,
) -> Option<ConnectorError> {
    match item.request.payment_method_data {
        Some(PaymentMethodData::Card(_)) => crate::errors::first_of(
            crate::errors::first_of(
                crate::errors::first_of(
                    crate::errors::first_of(
                        crate::errors::first_of(
                            crate::errors::error_of(item.request.email),
                            crate::errors::error_of(item.billing.full_name),
                        ),
                        crate::errors::error_of(item.request.redirect_payload),
                    ),
                    crate::errors::missing(
                        decoded,
                        ConnectorError::MissingConnectorRedirectionPayload {
                            field_name: "meta_data_jwt",
                        },
                    ),
                ),
                crate::errors::missing(
                    item.request.connector_transaction_id,
                    ConnectorError::MissingConnectorTransactionID,
                ),
            ),
            crate::errors::error_of(buyer_token(item.payment_method_token)),
        ),
        _ => Some(crate::payme::sales::cannot_tokenize()),
    }
}

impl Pay3dsRequest {
    /// The request to pay after the customer came back. `decoded` is what the customer
    /// came back with, where it could be decoded.
    pub fn try_from(
        item: &PaymentsCompleteAuthorizeRouterData,
        decoded: Option<PaymeRedirectResponseData>,
    ) -> (res: Result<Pay3dsRequest, ConnectorError>)
        ensures
            match pay_3ds_error(*item, decoded) {
                Some(error) => res == Err::<Pay3dsRequest, ConnectorError>(error),
                None => {
                    &&& res matches Ok(request)
                    &&& item.request.email == Ok::<Secret<String>, ConnectorError>(
                        request.buyer_email,
                    )
                    &&& item.billing.full_name == Ok::<Secret<String>, ConnectorError>(
                        request.buyer_name,
                    )
                    &&& buyer_token(item.payment_method_token) == Ok::<
                        Secret<String>,
                        ConnectorError,
                    >(request.buyer_key)
                    &&& item.request.connector_transaction_id == Some(request.payme_sale_id)
                    &&& decoded == Some(
                        (PaymeRedirectResponseData { meta_data: request.meta_data_jwt.inner_secret }),
                    )
                },
            },
    {
        match &item.request.payment_method_data {
            Some(PaymentMethodData::Card(_)) => {
                let buyer_email = match copy_required_secret(&item.request.email) {
                    Ok(email) => email,
                    Err(error) => {
                        return Err(error);
                    },
                };
                let buyer_name = match copy_required_secret(&item.billing.full_name) {
                    Ok(name) => name,
                    Err(error) => {
                        return Err(error);
                    },
                };
                if let Err(error) = &item.request.redirect_payload {
                    return Err(*error);
                }
                let jwt_data = match decoded {
                    Some(data) => data,
                    None => {
                        return Err(
                            ConnectorError::MissingConnectorRedirectionPayload {
                                field_name: "meta_data_jwt",
                            },
                        );
                    },
                };
                let payme_sale_id = match clone_optional(&item.request.connector_transaction_id) {
                    Some(id) => id,
                    None => {
                        return Err(ConnectorError::MissingConnectorTransactionID);
                    },
                };
                match get_buyer_token(item) {
                    Err(error) => Err(error),
                    Ok(buyer_key) => Ok(
                        Pay3dsRequest {
                            buyer_email,
                            buyer_key,
                            buyer_name,
                            payme_sale_id,
                            meta_data_jwt: Secret::new(jwt_data.meta_data),
                        },
                    ),
                }
            },
            Some(PaymentMethodData::CardRedirect)
            | Some(PaymentMethodData::Wallet(_))
            | Some(PaymentMethodData::PayLater)
            | Some(PaymentMethodData::BankRedirect)
            | Some(PaymentMethodData::BankDebit)
            | Some(PaymentMethodData::BankTransfer)
            | Some(PaymentMethodData::Crypto)
            | Some(PaymentMethodData::MandatePayment)
            | Some(PaymentMethodData::Reward)
            | Some(PaymentMethodData::RealTimePayment)
            | Some(PaymentMethodData::MobilePayment)
            | Some(PaymentMethodData::Upi)
            | Some(PaymentMethodData::Voucher)
            | Some(PaymentMethodData::GiftCard)
            | Some(PaymentMethodData::OpenBanking)
            | Some(PaymentMethodData::CardToken)
            | Some(PaymentMethodData::NetworkToken)
            | Some(PaymentMethodData::CardDetailsForNetworkTransactionId)
            | None => Err(ConnectorError::NotImplemented(Unimplemented::Feature("Tokenize Flow"))),
        }
    }
}

/// A request for the state of a sale.
pub struct PaymeQuerySaleRequest {
    pub sale_payme_id: String,
    pub seller_payme_id: Secret<String>,
}

impl<'a> TryFrom<&'a PaymentsSyncRouterData> for PaymeQuerySaleRequest {
    type Error = ConnectorError;

    fn try_from(value: &'a PaymentsSyncRouterData) -> (res: Result<Self, ConnectorError>) {
        let seller_payme_id = match get_seller(&value.connector_auth_type) {
            Ok(seller) => seller,
            Err(error) => {
                return Err(error);
            },
        };
        match copy_required(&value.request.connector_transaction_id) {
            Ok(sale_payme_id) => Ok(PaymeQuerySaleRequest { sale_payme_id, seller_payme_id }),
            Err(error) => Err(error),
        }
    }
}

impl<'a> vstd::std_specs::convert::TryFromSpecImpl<&'a PaymentsSyncRouterData> for PaymeQuerySaleRequest {
    open spec fn obeys_try_from_spec() -> bool {
        true
    }

    open spec fn try_from_spec(value: &'a PaymentsSyncRouterData) -> Result<Self, ConnectorError> {
        match (
            crate::payme::sales::seller_of(value.connector_auth_type),
            value.request.connector_transaction_id,
        ) {
            (Err(error), _) => Err(error),
            (Ok(_), Err(error)) => Err(error),
            (Ok(seller_payme_id), Ok(sale_payme_id)) => Ok(
                PaymeQuerySaleRequest { sale_payme_id, seller_payme_id },
            ),
        }
    }
}

/// A request to capture a sale.
#[derive(Debug, PartialEq, Eq)]
pub struct PaymentCaptureRequest {
    pub payme_sale_id: String,
    pub sale_price: MinorUnit,
}

impl<'a, 'b> TryFrom<&'a PaymeRouterData<&'b PaymentsCaptureRouterData>> for PaymentCaptureRequest {
    type Error = ConnectorError;

    fn try_from(item: &'a PaymeRouterData<&'b PaymentsCaptureRouterData>) -> (res: Result<Self, ConnectorError>) {
        if item.router_data.request.minor_amount_to_capture
            != item.router_data.request.minor_payment_amount {
            return Err(
                ConnectorError::NotSupported { message: "Partial Capture", connector: "Payme" },
            );
        }
        Ok(
            PaymentCaptureRequest {
                payme_sale_id: item.router_data.request.connector_transaction_id.clone(),
                sale_price: item.amount,
            },
        )
    }
}

impl<'a, 'b> vstd::std_specs::convert::TryFromSpecImpl<&'a PaymeRouterData<&'b PaymentsCaptureRouterData>> for PaymentCaptureRequest {
    open spec fn obeys_try_from_spec() -> bool {
        true
    }

    open spec fn try_from_spec(item: &'a PaymeRouterData<&'b PaymentsCaptureRouterData>) -> Result<Self, ConnectorError> {
        if item.router_data.request.minor_amount_to_capture
            == item.router_data.request.minor_payment_amount {
            Ok(
                PaymentCaptureRequest {
                    payme_sale_id: item.router_data.request.connector_transaction_id,
                    sale_price: item.amount,
                },
            )
        } else {
            Err(ConnectorError::NotSupported { message: "Partial Capture", connector: "Payme" })
        }
    }
}

/// A request to cancel a sale.
pub struct PaymeVoidRequest {
    pub sale_currency: Currency,
    pub payme_sale_id: String,
    pub seller_payme_id: Secret<String>,
    pub language: String,
}

impl<'a, 'b> TryFrom<&'a PaymeRouterData<&'b PaymentsCancelRouterData>> for PaymeVoidRequest {
    type Error = ConnectorError;

    fn try_from(item: &'a PaymeRouterData<&'b PaymentsCancelRouterData>) -> (res: Result<Self, ConnectorError>)
        ensures
            match crate::errors::first_of(
                crate::errors::error_of(
                    crate::payme::sales::seller_of(item.router_data.connector_auth_type),
                ),
                crate::errors::error_of(item.router_data.request.currency),
            ) {
                Some(error) => res == Err::<PaymeVoidRequest, ConnectorError>(error),
                None => {
                    &&& res matches Ok(request)
                    &&& request.payme_sale_id == item.router_data.request.connector_transaction_id
                    &&& crate::payme::sales::seller_of(item.router_data.connector_auth_type) == Ok::<
                        Secret<String>,
                        ConnectorError,
                    >(request.seller_payme_id)
                    &&& item.router_data.request.currency == Ok::<Currency, ConnectorError>(
                        request.sale_currency,
                    )
                    &&& request.language@ == LANGUAGE@
                },
            },
    {
        let seller_payme_id = match get_seller(&item.router_data.connector_auth_type) {
            Ok(seller) => seller,
            Err(error) => {
                return Err(error);
            },
        };
        match &item.router_data.request.currency {
            Err(error) => Err(*error),
            Ok(currency) => Ok(
                PaymeVoidRequest {
                    payme_sale_id: item.router_data.request.connector_transaction_id.clone(),
                    seller_payme_id,
                    sale_currency: currency.clone(),
                    language: LANGUAGE.to_string(),
                },
            ),
        }
    }
}

impl<'a, 'b> vstd::std_specs::convert::TryFromSpecImpl<&'a PaymeRouterData<&'b PaymentsCancelRouterData>> for PaymeVoidRequest {
    open spec fn obeys_try_from_spec() -> bool {
        false
    }

    open spec fn try_from_spec(item: &'a PaymeRouterData<&'b PaymentsCancelRouterData>) -> Result<Self, ConnectorError> {
        arbitrary()
    }
}

// ---------------------------------------------------------------------------
// The answers
// ---------------------------------------------------------------------------

/// Where a sale stands at Payme.
#[derive(Clone, Copy, Debug, PartialEq, Eq, Structural)]
pub enum SaleStatus {
    Initial,
    Completed,
    Refunded,
    PartialRefund,
    Authorized,
    Voided,
    PartialVoid,
    Failed,
    Chargeback,
}

/// Where an attempt stands.
pub open spec fn attempt_status_of(item: SaleStatus) -> AttemptStatus {
    match item {
        SaleStatus::Initial => AttemptStatus::Authorizing,
        SaleStatus::Completed => AttemptStatus::Charged,
        SaleStatus::Refunded
        | SaleStatus::PartialRefund
        | SaleStatus::Chargeback => AttemptStatus::AutoRefunded,
        SaleStatus::Authorized => AttemptStatus::Authorized,
        SaleStatus::Voided | SaleStatus::PartialVoid => AttemptStatus::Voided,
        SaleStatus::Failed => AttemptStatus::Failure,
    }
}

impl From<SaleStatus> for AttemptStatus {
    fn from(item: SaleStatus) -> (res: Self) {
        match item {
            SaleStatus::Initial => Self::Authorizing,
            SaleStatus::Completed => Self::Charged,
            SaleStatus::Refunded | SaleStatus::PartialRefund => Self::AutoRefunded,
            SaleStatus::Authorized => Self::Authorized,
            SaleStatus::Voided | SaleStatus::PartialVoid => Self::Voided,
            SaleStatus::Failed => Self::Failure,
            SaleStatus::Chargeback => Self::AutoRefunded,
        }
    }
}

impl vstd::std_specs::convert::FromSpecImpl<SaleStatus> for AttemptStatus {
    open spec fn obeys_from_spec() -> bool {
        true
    }

    open spec fn from_spec(item: SaleStatus) -> Self {
        attempt_status_of(item)
    }
}

/// Only a failed sale is answered with an error.
pub proof fn law_only_failed_sales_fail(item: SaleStatus)
    ensures
        crate::enums::payment_failed(attempt_status_of(item)) <==> item is Failed,
{
}

/// A paid sale, or a report of one.
#[derive(PartialEq, Eq)]
pub struct PaymePaySaleResponse {
    pub sale_status: SaleStatus,
    pub payme_sale_id: String,
    pub payme_transaction_id: Option<String>,
    pub buyer_key: Option<Secret<String>>,
    pub status_error_details: Option<String>,
    pub status_error_code: Option<u32>,
    pub sale_3ds: Option<bool>,
    pub redirect_url: Option<WebUrl>,
}

/// What is kept of a sale for later calls.
#[derive(Debug, PartialEq, Eq)]
pub struct PaymeMetadata {
    pub payme_transaction_id: Option<String>,
}

/// The state of a sale.
#[derive(Debug, PartialEq, Eq)]
pub struct SaleQuery {
    pub sale_status: SaleStatus,
    pub sale_payme_id: String,
    pub sale_error_text: Option<String>,
    pub sale_error_code: Option<String>,
}

/// The answer to a request for the state of a sale.
#[derive(Debug, PartialEq, Eq)]
pub struct SaleQueryResponse {
    pub items: Vec<SaleQuery>,
}

/// The state of a payment, by a report or on request.
#[derive(PartialEq, Eq)]
pub enum PaymePaymentsResponse {
    PaymePaySaleResponse(PaymePaySaleResponse),
    SaleQueryResponse(SaleQueryResponse),
}

/// An error code as text.
pub open spec fn code_text(code: Option<u32>) -> Option<Seq<char>> {
    match code {
        Some(number) => Some(crate::text::number_text(number as nat)),
        None => None,
    }
}

/// Writes an error code.
pub fn write_code(code: Option<u32>) -> (res: Option<String>)
    ensures
        crate::text::opt_view(res) == code_text(code),
{
    match code {
        Some(number) => Some(render_u128(number as u128)),
        None => None,
    }
}

/// An optional text, or a fixed one.
pub open spec fn text_or(text: Option<Seq<char>>, default: Seq<char>) -> Seq<char> {
    match text {
        Some(chars) => chars,
        None => default,
    }
}

/// Whether an error tells of a failed sale.
pub open spec fn is_pay_sale_error(
    error: ErrorResponse,
    response: PaymePaySaleResponse,
    http_code: u16,
) -> bool {
    error.tells(
        text_or(code_text(response.status_error_code), NO_ERROR_CODE@),
        crate::text::view_or(response.status_error_details, NO_ERROR_MESSAGE@),
        crate::text::opt_view(response.status_error_details),
        http_code,
        Some(response.payme_sale_id@),
    )
}

/// The error that tells of a failed sale.
pub fn get_pay_sale_error_response(item: (&PaymePaySaleResponse, u16)) -> (res: ErrorResponse)
    ensures
        is_pay_sale_error(res, *item.0, item.1),
{
    let (response, http_code) = item;
    ErrorResponse::from_connector(
        &write_code(response.status_error_code),
        &response.status_error_details,
        &response.status_error_details,
        http_code,
        Some(response.payme_sale_id.clone()),
    )
}

/// Whether the customer has to go on where the sale says, and nowhere else.
pub open spec fn is_sale_redirection(
    redirection: Option<RedirectionData>,
    value: PaymePaySaleResponse,
) -> bool {
    match (value.sale_3ds, value.redirect_url) {
        (Some(true), Some(url)) => {
            &&& redirection matches Some(
                RedirectionData::Page(RedirectForm::Form { endpoint, method, form_fields }),
            )
            &&& endpoint == url.text
            &&& method == Method::Get
            &&& form_fields@.len() == 0
        },
        _ => redirection is None,
    }
}

/// Whether an answer is the transaction that a sale leads to.
pub open spec fn is_sale_transaction(data: PaymentsResponseData, value: PaymePaySaleResponse) -> bool {
    &&& data matches PaymentsResponseData::TransactionResponse {
        resource_id,
        redirection_data,
        mandate_reference,
        connector_metadata,
        network_txn_id,
        connector_response_reference_id,
        incremental_authorization_allowed,
    }
    &&& resource_id == ResponseId::ConnectorTransactionId(value.payme_sale_id)
    &&& is_sale_redirection(redirection_data, value)
    &&& mandate_reference == (match value.buyer_key {
        Some(key) => Some(
            MandateReference {
                connector_mandate_id: Some(key.inner_secret),
                payment_method_id: None,
                connector_mandate_request_reference_id: None,
            },
        ),
        None => None,
    })
    &&& connector_metadata is None
    &&& network_txn_id is None
    &&& connector_response_reference_id is None
    &&& incremental_authorization_allowed is None
}

impl<'a> TryFrom<&'a PaymePaySaleResponse> for PaymentsResponseData {
    type Error = ConnectorError;

    fn try_from(value: &'a PaymePaySaleResponse) -> (res: Result<Self, ConnectorError>)
        ensures
            res matches Ok(data) && is_sale_transaction(data, *value),
    {
        let redirection_data = match value.sale_3ds {
            Some(true) => match &value.redirect_url {
                Some(url) => Some(
                    RedirectionData::Page(
                        RedirectForm::Form {
                            endpoint: url.text.clone(),
                            method: Method::Get,
                            form_fields: Vec::new(),
                        },
                    ),
                ),
                None => None,
            },
            _ => None,
        };
        let mandate_reference = match clone_optional_secret(&value.buyer_key) {
            Some(key) => Some(
                MandateReference {
                    connector_mandate_id: Some(key.expose()),
                    payment_method_id: None,
                    connector_mandate_request_reference_id: None,
                },
            ),
            None => None,
        };
        Ok(
            PaymentsResponseData::TransactionResponse {
                resource_id: ResponseId::ConnectorTransactionId(value.payme_sale_id.clone()),
                redirection_data,
                mandate_reference,
                connector_metadata: None,
                network_txn_id: None,
                connector_response_reference_id: None,
                incremental_authorization_allowed: None,
            },
        )
    }
}

impl<'a> vstd::std_specs::convert::TryFromSpecImpl<&'a PaymePaySaleResponse> for PaymentsResponseData {
    open spec fn obeys_try_from_spec() -> bool {
        false
    }

    open spec fn try_from_spec(value: &'a PaymePaySaleResponse) -> Result<Self, ConnectorError> {
        arbitrary()
    }
}

/// Whether data is what a paid sale, or a report of one, leads to.
pub open spec fn took_over_sale<T>(
    before: RouterData<T, PaymentsResponseData>,
    after: RouterData<T, PaymentsResponseData>,
    response: PaymePaySaleResponse,
    http_code: u16,
) -> bool {
    &&& after == (RouterData {
        status: attempt_status_of(response.sale_status),
        response: after.response,
        ..before
    })
    &&& if response.sale_status is Failed {
        after.response matches Err(error) && is_pay_sale_error(error, response, http_code)
    } else {
        after.response matches Ok(data) && is_sale_transaction(data, response)
    }
}

impl<T> TryFrom<ResponseRouterData<PaymePaySaleResponse, T, PaymentsResponseData>> for RouterData<T, PaymentsResponseData> {
    type Error = ConnectorError;

    fn try_from(item: ResponseRouterData<PaymePaySaleResponse, T, PaymentsResponseData>) -> (res: Result<Self, ConnectorError>)
        ensures
            res matches Ok(after) && took_over_sale(item.data, after, item.response, item.http_code),
    {
        let status = AttemptStatus::from(item.response.sale_status);
        let response = if is_payment_failure(status) {
            Err(get_pay_sale_error_response((&item.response, item.http_code)))
        } else {
            match PaymentsResponseData::try_from(&item.response) {
                Ok(data) => Ok(data),
                Err(error) => {
                    return Err(error);
                },
            }
        };
        Ok(RouterData { status, response, ..item.data })
    }
}

impl<T> vstd::std_specs::convert::TryFromSpecImpl<ResponseRouterData<PaymePaySaleResponse, T, PaymentsResponseData>> for RouterData<T, PaymentsResponseData> {
    open spec fn obeys_try_from_spec() -> bool {
        false
    }

    open spec fn try_from_spec(item: ResponseRouterData<PaymePaySaleResponse, T, PaymentsResponseData>) -> Result<Self, ConnectorError> {
        arbitrary()
    }
}

/// Whether an error tells of a sale whose state is failed.
pub open spec fn is_sale_query_error(error: ErrorResponse, sale: SaleQuery, http_code: u16) -> bool {
    error.tells(
        crate::text::view_or(sale.sale_error_code, NO_ERROR_CODE@),
        crate::text::view_or(sale.sale_error_text, NO_ERROR_MESSAGE@),
        crate::text::opt_view(sale.sale_error_text),
        http_code,
        Some(sale.sale_payme_id@),
    )
}

/// The error that tells of a sale whose state is failed.
pub fn get_sale_query_error_response(item: (&SaleQuery, u16)) -> (res: ErrorResponse)
    ensures
        is_sale_query_error(res, *item.0, item.1),
{
    let (sale, http_code) = item;
    ErrorResponse::from_connector(
        &sale.sale_error_code,
        &sale.sale_error_text,
        &sale.sale_error_text,
        http_code,
        Some(sale.sale_payme_id.clone()),
    )
}

/// The transaction that the state of a sale leads to. A mandate is told by reports only.
pub open spec fn queried_transaction(value: SaleQuery) -> PaymentsResponseData {
    PaymentsResponseData::plain_transaction(
        ResponseId::ConnectorTransactionId(value.sale_payme_id),
        None,
        None,
    )
}

impl<'a> From<&'a SaleQuery> for PaymentsResponseData {
    fn from(value: &'a SaleQuery) -> (res: Self) {
        PaymentsResponseData::TransactionResponse {
            resource_id: ResponseId::ConnectorTransactionId(value.sale_payme_id.clone()),
            redirection_data: None,
            mandate_reference: None,
            connector_metadata: None,
            network_txn_id: None,
            connector_response_reference_id: None,
            incremental_authorization_allowed: None,
        }
    }
}

impl<'a> vstd::std_specs::convert::FromSpecImpl<&'a SaleQuery> for PaymentsResponseData {
    open spec fn obeys_from_spec() -> bool {
        true
    }

    open spec fn from_spec(value: &'a SaleQuery) -> Self {
        queried_transaction(*value)
    }
}

/// Whether data is what the state of a sale leads to.
pub open spec fn took_over_query<T>(
    before: RouterData<T, PaymentsResponseData>,
    after: RouterData<T, PaymentsResponseData>,
    sale: SaleQuery,
    http_code: u16,
) -> bool {
    &&& after == (RouterData {
        status: attempt_status_of(sale.sale_status),
        response: after.response,
        ..before
    })
    &&& if sale.sale_status is Failed {
        after.response matches Err(error) && is_sale_query_error(error, sale, http_code)
    } else {
        after.response == Ok::<PaymentsResponseData, ErrorResponse>(queried_transaction(sale))
    }
}

impl<T> TryFrom<ResponseRouterData<SaleQueryResponse, T, PaymentsResponseData>> for RouterData<T, PaymentsResponseData> {
    type Error = ConnectorError;

    fn try_from(item: ResponseRouterData<SaleQueryResponse, T, PaymentsResponseData>) -> (res: Result<Self, ConnectorError>)
        ensures
            if item.response.items@.len() == 0 {
                res == Err::<RouterData<T, PaymentsResponseData>, ConnectorError>(
                    ConnectorError::ResponseHandlingFailed,
                )
            } else {
                res matches Ok(after) && took_over_query(
                    item.data,
                    after,
                    item.response.items@[0],
                    item.http_code,
                )
            },
    {
        // The request names one sale, so that the answer tells of one.
        if item.response.items.len() == 0 {
            return Err(ConnectorError::ResponseHandlingFailed);
        }
        let sale = &item.response.items[0];
        let status = AttemptStatus::from(sale.sale_status);
        let response = if is_payment_failure(status) {
            Err(get_sale_query_error_response((sale, item.http_code)))
        } else {
            Ok(PaymentsResponseData::from(sale))
        };
        Ok(RouterData { status, response, ..item.data })
    }
}

impl<T> vstd::std_specs::convert::TryFromSpecImpl<ResponseRouterData<SaleQueryResponse, T, PaymentsResponseData>> for RouterData<T, PaymentsResponseData> {
    open spec fn obeys_try_from_spec() -> bool {
        false
    }

    open spec fn try_from_spec(item: ResponseRouterData<SaleQueryResponse, T, PaymentsResponseData>) -> Result<Self, ConnectorError> {
        arbitrary()
    }
}

impl<T> TryFrom<ResponseRouterData<PaymePaymentsResponse, T, PaymentsResponseData>> for RouterData<T, PaymentsResponseData> {
    type Error = ConnectorError;

    fn try_from(item: ResponseRouterData<PaymePaymentsResponse, T, PaymentsResponseData>) -> (res: Result<Self, ConnectorError>)
        ensures
            match item.response {
                PaymePaymentsResponse::PaymePaySaleResponse(response) => res matches Ok(after)
                    && took_over_sale(item.data, after, response, item.http_code),
                PaymePaymentsResponse::SaleQueryResponse(response) => if response.items@.len() == 0 {
                    res == Err::<RouterData<T, PaymentsResponseData>, ConnectorError>(
                        ConnectorError::ResponseHandlingFailed,
                    )
                } else {
                    res matches Ok(after) && took_over_query(
                        item.data,
                        after,
                        response.items@[0],
                        item.http_code,
                    )
                },
            },
    {
        match item.response {
            PaymePaymentsResponse::PaymePaySaleResponse(response) => {
                RouterData::try_from(
                    ResponseRouterData { response, data: item.data, http_code: item.http_code },
                )
            },
            PaymePaymentsResponse::SaleQueryResponse(response) => {
                RouterData::try_from(
                    ResponseRouterData { response, data: item.data, http_code: item.http_code },
                )
            },
        }
    }
}

impl<T> vstd::std_specs::convert::TryFromSpecImpl<ResponseRouterData<PaymePaymentsResponse, T, PaymentsResponseData>> for RouterData<T, PaymentsResponseData> {
    open spec fn obeys_try_from_spec() -> bool {
        false
    }

    open spec fn try_from_spec(item: ResponseRouterData<PaymePaymentsResponse, T, PaymentsResponseData>) -> Result<Self, ConnectorError> {
        arbitrary()
    }
}

/// The answer to a request to cancel a sale.
#[derive(Debug, PartialEq, Eq)]
pub struct PaymeVoidResponse {
    pub sale_status: SaleStatus,
    pub payme_transaction_id: Option<String>,
    pub status_error_code: Option<u32>,
}

/// Whether an error tells of a request that failed with nothing but an error code.
pub open spec fn is_coded_error(
    error: ErrorResponse,
    status_error_code: Option<u32>,
    http_code: u16,
    payme_transaction_id: Option<String>,
) -> bool {
    error.tells(
        text_or(code_text(status_error_code), NO_ERROR_CODE@),
        text_or(code_text(status_error_code), NO_ERROR_MESSAGE@),
        code_text(status_error_code),
        http_code,
        crate::text::opt_view(payme_transaction_id),
    )
}

/// The error that tells of a request that failed with nothing but an error code.
pub fn coded_error(
    status_error_code: Option<u32>,
    http_code: u16,
    payme_transaction_id: &Option<String>,
) -> (res: ErrorResponse)
    ensures
        is_coded_error(res, status_error_code, http_code, *payme_transaction_id),
{
    let code = write_code(status_error_code);
    ErrorResponse::from_connector(
        &code,
        &code,
        &code,
        http_code,
        clone_optional(payme_transaction_id),
    )
}

impl TryFrom<ResponseRouterData<PaymeVoidResponse, PaymentsCancelData, PaymentsResponseData>> for RouterData<PaymentsCancelData, PaymentsResponseData> {
    type Error = ConnectorError;

    fn try_from(item: ResponseRouterData<PaymeVoidResponse, PaymentsCancelData, PaymentsResponseData>) -> (res: Result<Self, ConnectorError>)
        ensures
            ({
                &&& res matches Ok(after)
                &&& after == (RouterData {
                    status: attempt_status_of(item.response.sale_status),
                    response: after.response,
                    ..item.data
                })
                &&& if item.response.sale_status is Failed {
                    after.response matches Err(error) && is_coded_error(
                        error,
                        item.response.status_error_code,
                        item.http_code,
                        item.response.payme_transaction_id,
                    )
                } else {
                    after.response == Ok::<PaymentsResponseData, ErrorResponse>(
                        PaymentsResponseData::plain_transaction(
                            ResponseId::NoResponseId,
                            None,
                            None,
                        ),
                    )
                }
            }),
    {
        let status = AttemptStatus::from(item.response.sale_status);
        let response = if is_payment_failure(status) {
            Err(
                coded_error(
                    item.response.status_error_code,
                    item.http_code,
                    &item.response.payme_transaction_id,
                ),
            )
        } else {
            // The answer does not tell the id of the sale.
            Ok(
                PaymentsResponseData::TransactionResponse {
                    resource_id: ResponseId::NoResponseId,
                    redirection_data: None,
                    mandate_reference: None,
                    connector_metadata: None,
                    network_txn_id: None,
                    connector_response_reference_id: None,
                    incremental_authorization_allowed: None,
                },
            )
        };
        Ok(RouterData { status, response, ..item.data })
    }
}

impl vstd::std_specs::convert::TryFromSpecImpl<ResponseRouterData<PaymeVoidResponse, PaymentsCancelData, PaymentsResponseData>> for RouterData<PaymentsCancelData, PaymentsResponseData> {
    open spec fn obeys_try_from_spec() -> bool {
        false
    }

    open spec fn try_from_spec(item: ResponseRouterData<PaymeVoidResponse, PaymentsCancelData, PaymentsResponseData>) -> Result<Self, ConnectorError> {
        arbitrary()
    }
}

/// An error that Payme reports.
pub struct PaymeErrorResponse {
    pub status_code: u16,
    pub status_error_details: String,
    pub status_additional_info: serde_json::Value,
    pub status_error_code: u32,
}

} // verus!
