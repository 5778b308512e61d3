//! Refunds at Payme.
use vstd::prelude::*;
use crate::consts::NO_ERROR_CODE;
use crate::enums::{is_refund_failure, MinorUnit, RefundStatus};
use crate::errors::ConnectorError;
use crate::payme::payments::{coded_error, SaleStatus};
use crate::payme::sales::{get_seller, PaymeRouterData, LANGUAGE};
use crate::router_data::{ErrorResponse, RefundsData, RefundsResponseData, RefundsRouterData, ResponseRouterData, RouterData};
use crate::secret::Secret;

verus! {

/// A request to refund a sale.
pub struct PaymeRefundRequest {
    pub sale_refund_amount: MinorUnit,
    pub payme_sale_id: String,
    pub seller_payme_id: Secret<String>,
    pub language: String,
}

impl<'a, 'b> TryFrom<&'a PaymeRouterData<&'b RefundsRouterData>> for PaymeRefundRequest {
    type Error = ConnectorError;

    fn try_from(item: &'a PaymeRouterData<&'b RefundsRouterData>) -> (res: Result<Self, ConnectorError>)
        ensures
            match crate::payme::sales::seller_of(item.router_data.connector_auth_type) {
                Err(error) => res == Err::<PaymeRefundRequest, ConnectorError>(error),
                Ok(seller) => {
                    &&& res matches Ok(request)
                    &&& request.payme_sale_id == item.router_data.request.connector_transaction_id
                    &&& request.seller_payme_id == seller
                    &&& request.sale_refund_amount == item.amount
                    &&& request.language@ == LANGUAGE@
                },
            },
    {
        match get_seller(&item.router_data.connector_auth_type) {
            Err(error) => Err(error),
            Ok(seller_payme_id) => Ok(
                PaymeRefundRequest {
                    payme_sale_id: item.router_data.request.connector_transaction_id.clone(),
                    seller_payme_id,
                    sale_refund_amount: item.amount,
                    language: LANGUAGE.to_string(),
                },
            ),
        }
    }
}

impl<'a, 'b> vstd::std_specs::convert::TryFromSpecImpl<&'a PaymeRouterData<&'b RefundsRouterData>> for PaymeRefundRequest {
    open spec fn obeys_try_from_spec() -> bool {
        false
    }

    open spec fn try_from_spec(item: &'a PaymeRouterData<&'b RefundsRouterData>) -> Result<Self, ConnectorError> {
        arbitrary()
    }
}

/// A request for the state of a transaction.
pub struct PaymeQueryTransactionRequest {
    pub payme_transaction_id: String,
    pub seller_payme_id: Secret<String>,
}

impl<'a> TryFrom<&'a RefundsRouterData> for PaymeQueryTransactionRequest {
    type Error = ConnectorError;

    fn try_from(value: &'a RefundsRouterData) -> (res: Result<Self, ConnectorError>) {
        let seller_payme_id = match get_seller(&value.connector_auth_type) {
            Ok(seller) => seller,
            Err(error) => {
                return Err(error);
            },
        };
        match &value.request.connector_refund_id {
            None => Err(ConnectorError::MissingConnectorRefundID),
            Some(id) => Ok(
                PaymeQueryTransactionRequest {
                    payme_transaction_id: id.clone(),
                    seller_payme_id,
                },
            ),
        }
    }
}

impl<'a> vstd::std_specs::convert::TryFromSpecImpl<&'a RefundsRouterData> for PaymeQueryTransactionRequest {
    open spec fn obeys_try_from_spec() -> bool {
        true
    }

    open spec fn try_from_spec(value: &'a RefundsRouterData) -> Result<Self, ConnectorError> {
        match (
            crate::payme::sales::seller_of(value.connector_auth_type),
            value.request.connector_refund_id,
        ) {
            (Err(error), _) => Err(error),
            (Ok(_), None) => Err(ConnectorError::MissingConnectorRefundID),
            (Ok(seller_payme_id), Some(payme_transaction_id)) => Ok(
                PaymeQueryTransactionRequest { payme_transaction_id, seller_payme_id },
            ),
        }
    }
}

/// Where a refund stands, where the state of the sale tells it.
pub open spec fn refund_status_of(sale_status: SaleStatus) -> Result<RefundStatus, ConnectorError> {
    match sale_status {
        SaleStatus::Refunded | SaleStatus::PartialRefund => Ok(RefundStatus::Success),
        SaleStatus::Failed => Ok(RefundStatus::Failure),
        _ => Err(ConnectorError::ResponseHandlingFailed),
    }
}

impl TryFrom<SaleStatus> for RefundStatus {
    type Error = ConnectorError;

    fn try_from(sale_status: SaleStatus) -> (res: Result<Self, ConnectorError>) {
        match sale_status {
            SaleStatus::Refunded | SaleStatus::PartialRefund => Ok(RefundStatus::Success),
            SaleStatus::Failed => Ok(RefundStatus::Failure),
            SaleStatus::Initial
            | SaleStatus::Completed
            | SaleStatus::Authorized
            | SaleStatus::Voided
            | SaleStatus::PartialVoid
            | SaleStatus::Chargeback => Err(ConnectorError::ResponseHandlingFailed),
        }
    }
}

impl vstd::std_specs::convert::TryFromSpecImpl<SaleStatus> for RefundStatus {
    open spec fn obeys_try_from_spec() -> bool {
        true
    }

    open spec fn try_from_spec(sale_status: SaleStatus) -> Result<Self, ConnectorError> {
        refund_status_of(sale_status)
    }
}

/// A state that tells of a refund that went well is one in which the attempt counts as
/// refunded.
pub proof fn law_refunded_sales_are_refunded(sale_status: SaleStatus)
    ensures
        refund_status_of(sale_status) == Ok::<RefundStatus, ConnectorError>(RefundStatus::Success)
            ==> crate::payme::payments::attempt_status_of(sale_status) is AutoRefunded,
        refund_status_of(sale_status) == Ok::<RefundStatus, ConnectorError>(RefundStatus::Failure)
            <==> crate::enums::payment_failed(
            crate::payme::payments::attempt_status_of(sale_status),
        ),
{
}

/// The answer to a request to refund a sale.
#[derive(Debug, PartialEq, Eq)]
pub struct PaymeRefundResponse {
    pub sale_status: SaleStatus,
    pub payme_transaction_id: Option<String>,
    pub status_error_code: Option<u32>,
}

impl TryFrom<ResponseRouterData<PaymeRefundResponse, RefundsData, RefundsResponseData>> for RouterData<RefundsData, RefundsResponseData> {
    type Error = ConnectorError;

    fn try_from(item: ResponseRouterData<PaymeRefundResponse, RefundsData, RefundsResponseData>) -> (res: Result<Self, ConnectorError>)
        ensures
            match refund_status_of(item.response.sale_status) {
                Err(error) => res == Err::<RefundsRouterData, ConnectorError>(error),
                Ok(refund_status) => if crate::enums::refund_failed(refund_status) {
                    &&& res matches Ok(after)
                    &&& after == (RouterData { response: after.response, ..item.data })
                    &&& after.response matches Err(error)
                    &&& crate::payme::payments::is_coded_error(
                        error,
                        item.response.status_error_code,
                        item.http_code,
                        item.response.payme_transaction_id,
                    )
                } else {
                    match item.response.payme_transaction_id {
                        None => res == Err::<RefundsRouterData, ConnectorError>(
                            ConnectorError::MissingConnectorRefundID,
                        ),
                        Some(connector_refund_id) => res == Ok::<RefundsRouterData, ConnectorError>(
                            (RouterData {
                                response: Ok(
                                    (RefundsResponseData { connector_refund_id, refund_status }),
                                ),
                                ..item.data
                            }),
                        ),
                    }
                },
            },
    {
        let refund_status = match RefundStatus::try_from(item.response.sale_status) {
            Ok(status) => status,
            Err(error) => {
                return Err(error);
            },
        };
        let response = if is_refund_failure(refund_status) {
            Err(
                coded_error(
                    item.response.status_error_code,
                    item.http_code,
                    &item.response.payme_transaction_id,
                ),
            )
        } else {
            match item.response.payme_transaction_id {
                None => {
                    return Err(ConnectorError::MissingConnectorRefundID);
                },
                Some(connector_refund_id) => Ok(
                    RefundsResponseData { connector_refund_id, refund_status },
                ),
            }
        };
        Ok(RouterData { response, ..item.data })
    }
}

impl vstd::std_specs::convert::TryFromSpecImpl<ResponseRouterData<PaymeRefundResponse, RefundsData, RefundsResponseData>> for RouterData<RefundsData, RefundsResponseData> {
    open spec fn obeys_try_from_spec() -> bool {
        false
    }

    open spec fn try_from_spec(item: ResponseRouterData<PaymeRefundResponse, RefundsData, RefundsResponseData>) -> Result<Self, ConnectorError> {
        arbitrary()
    }
}

/// The state of a transaction.
#[derive(Debug, PartialEq, Eq)]
pub struct TransactionQuery {
    pub sale_status: SaleStatus,
    pub payme_transaction_id: String,
}

/// The answer to a request for the state of a transaction.
#[derive(Debug, PartialEq, Eq)]
pub struct PaymeQueryTransactionResponse {
    pub items: Vec<TransactionQuery>,
}

/// Whether data is what the state of a refund leads to.
pub open spec fn took_over_refund_state<T>(
    before: RouterData<T, RefundsResponseData>,
    res: Result<RouterData<T, RefundsResponseData>, ConnectorError>,
    items: Seq<TransactionQuery>,
    http_code: u16,
) -> bool {
    if items.len() == 0 {
        res == Err::<RouterData<T, RefundsResponseData>, ConnectorError>(
            ConnectorError::ResponseHandlingFailed,
        )
    } else {
        match refund_status_of(items[0].sale_status) {
            Err(error) => res == Err::<RouterData<T, RefundsResponseData>, ConnectorError>(error),
            Ok(refund_status) => if crate::enums::refund_failed(refund_status) {
                &&& res matches Ok(after)
                &&& after == (RouterData { response: after.response, ..before })
                &&& after.response matches Err(error)
                &&& error.tells(
                    NO_ERROR_CODE@,
                    NO_ERROR_CODE@,
                    None,
                    http_code,
                    Some(items[0].payme_transaction_id@),
                )
            } else {
                res == Ok::<RouterData<T, RefundsResponseData>, ConnectorError>(
                    RouterData {
                        response: Ok(
                            RefundsResponseData {
                                connector_refund_id: items[0].payme_transaction_id,
                                refund_status,
                            },
                        ),
                        ..before
                    },
                )
            },
        }
    }
}

impl<T> TryFrom<ResponseRouterData<PaymeQueryTransactionResponse, T, RefundsResponseData>> for RouterData<T, RefundsResponseData> {
    type Error = ConnectorError;

    fn try_from(item: ResponseRouterData<PaymeQueryTransactionResponse, T, RefundsResponseData>) -> (res: Result<Self, ConnectorError>)
        ensures
            took_over_refund_state(item.data, res, item.response.items@, item.http_code),
    {
        if item.response.items.len() == 0 {
            return Err(ConnectorError::ResponseHandlingFailed);
        }
        let transaction = &item.response.items[0];
        let refund_status = match RefundStatus::try_from(transaction.sale_status) {
            Ok(status) => status,
            Err(error) => {
                return Err(error);
            },
        };
        let response = if is_refund_failure(refund_status) {
            Err(
                ErrorResponse::from_connector(
                    &None,
                    &Some(NO_ERROR_CODE.to_string()),
                    &None,
                    item.http_code,
                    Some(transaction.payme_transaction_id.clone()),
                ),
            )
        } else {
            Ok(
                RefundsResponseData {
                    refund_status,
                    connector_refund_id: transaction.payme_transaction_id.clone(),
                },
            )
        };
        Ok(RouterData { response, ..item.data })
    }
}

impl<T> vstd::std_specs::convert::TryFromSpecImpl<ResponseRouterData<PaymeQueryTransactionResponse, T, RefundsResponseData>> for RouterData<T, RefundsResponseData> {
    open spec fn obeys_try_from_spec() -> bool {
        false
    }

    open spec fn try_from_spec(item: ResponseRouterData<PaymeQueryTransactionResponse, T, RefundsResponseData>) -> Result<Self, ConnectorError> {
        arbitrary()
    }
}

} // verus!
