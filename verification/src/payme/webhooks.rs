//! Webhooks of Payme.
use vstd::prelude::*;
use crate::enums::{Currency, MinorUnit, RefundStatus};
use crate::payme::payments::{PaymePaySaleResponse, SaleStatus};
use crate::payme::refunds::{PaymeQueryTransactionResponse, TransactionQuery};
use crate::router_data::{RefundsResponseData, RouterData};
use crate::secret::Secret;
use crate::webhooks::{IncomingWebhookEvent, WebhookFlow};

verus! {

/// What Payme reports.
#[derive(Clone, Copy, Debug, PartialEq, Eq, Structural)]
pub enum NotifyType {
    SaleComplete,
    SaleAuthorized,
    Refund,
    SaleFailure,
    SaleChargeback,
    SaleChargebackRefund,
}

/// A report.
pub struct WebhookEventDataResource {
    pub sale_status: SaleStatus,
    pub payme_signature: Secret<String>,
    pub buyer_key: Option<Secret<String>>,
    pub notify_type: NotifyType,
    pub payme_sale_id: String,
    pub payme_transaction_id: String,
    pub status_error_details: Option<String>,
    pub status_error_code: Option<u32>,
    pub price: MinorUnit,
    pub currency: Currency,
}

/// The kind of a report.
#[derive(Debug, PartialEq, Eq)]
pub struct WebhookEventDataResourceEvent {
    pub notify_type: NotifyType,
}

/// The signature of a report.
pub struct WebhookEventDataResourceSignature {
    pub payme_signature: Secret<String>,
}

/// A sale as a report tells it.
pub open spec fn reported_sale(value: WebhookEventDataResource) -> PaymePaySaleResponse {
    PaymePaySaleResponse {
        sale_status: value.sale_status,
        payme_sale_id: value.payme_sale_id,
        payme_transaction_id: Some(value.payme_transaction_id),
        buyer_key: value.buyer_key,
        sale_3ds: None,
        redirect_url: None,
        status_error_code: value.status_error_code,
        status_error_details: value.status_error_details,
    }
}

impl From<WebhookEventDataResource> for PaymePaySaleResponse {
    fn from(value: WebhookEventDataResource) -> (res: Self) {
        PaymePaySaleResponse {
            sale_status: value.sale_status,
            payme_sale_id: value.payme_sale_id,
            payme_transaction_id: Some(value.payme_transaction_id),
            buyer_key: value.buyer_key,
            sale_3ds: None,
            redirect_url: None,
            status_error_code: value.status_error_code,
            status_error_details: value.status_error_details,
        }
    }
}

impl vstd::std_specs::convert::FromSpecImpl<WebhookEventDataResource> for PaymePaySaleResponse {
    open spec fn obeys_from_spec() -> bool {
        true
    }

    open spec fn from_spec(value: WebhookEventDataResource) -> Self {
        reported_sale(value)
    }
}

/// Whether an answer tells of the transaction of a report, and of no other.
pub open spec fn is_reported_transaction(
    response: PaymeQueryTransactionResponse,
    value: WebhookEventDataResource,
) -> bool {
    response.items@ == seq![
        TransactionQuery {
            sale_status: value.sale_status,
            payme_transaction_id: value.payme_transaction_id,
        },
    ]
}

impl From<WebhookEventDataResource> for PaymeQueryTransactionResponse {
    fn from(value: WebhookEventDataResource) -> (res: Self)
        ensures
            is_reported_transaction(res, value),
    {
        let item = TransactionQuery {
            sale_status: value.sale_status,
            payme_transaction_id: value.payme_transaction_id,
        };
        let mut items: Vec<TransactionQuery> = Vec::new();
        items.push(item);
        assert(items@ == seq![item]);
        PaymeQueryTransactionResponse { items }
    }
}

impl vstd::std_specs::convert::FromSpecImpl<WebhookEventDataResource> for PaymeQueryTransactionResponse {
    open spec fn obeys_from_spec() -> bool {
        false
    }

    open spec fn from_spec(value: WebhookEventDataResource) -> Self {
        arbitrary()
    }
}

/// A report in the terms of the switch.
pub open spec fn incoming_event(value: NotifyType) -> IncomingWebhookEvent {
    match value {
        NotifyType::SaleComplete => IncomingWebhookEvent::PaymentIntentSuccess,
        NotifyType::Refund => IncomingWebhookEvent::RefundSuccess,
        NotifyType::SaleFailure => IncomingWebhookEvent::PaymentIntentFailure,
        NotifyType::SaleChargeback => IncomingWebhookEvent::DisputeOpened,
        NotifyType::SaleChargebackRefund => IncomingWebhookEvent::DisputeWon,
        NotifyType::SaleAuthorized => IncomingWebhookEvent::EventNotSupported,
    }
}

impl From<NotifyType> for IncomingWebhookEvent {
    fn from(value: NotifyType) -> (res: Self) {
        match value {
            NotifyType::SaleComplete => Self::PaymentIntentSuccess,
            NotifyType::Refund => Self::RefundSuccess,
            NotifyType::SaleFailure => Self::PaymentIntentFailure,
            NotifyType::SaleChargeback => Self::DisputeOpened,
            NotifyType::SaleChargebackRefund => Self::DisputeWon,
            NotifyType::SaleAuthorized => Self::EventNotSupported,
        }
    }
}

impl vstd::std_specs::convert::FromSpecImpl<NotifyType> for IncomingWebhookEvent {
    open spec fn obeys_from_spec() -> bool {
        true
    }

    open spec fn from_spec(value: NotifyType) -> Self {
        incoming_event(value)
    }
}

/// Each report goes to the part of the switch that its name tells of: refunds to the
/// refunds, chargebacks to the disputes, and completed or failed sales to the payments.
pub proof fn law_reports_go_where_they_belong(value: NotifyType)
    ensures
        value is Refund <==> crate::webhooks::flow_of(incoming_event(value)) == WebhookFlow::Refund,
        (value is SaleChargeback || value is SaleChargebackRefund) <==> crate::webhooks::flow_of(
            incoming_event(value),
        ) == WebhookFlow::Dispute,
        (value is SaleComplete || value is SaleFailure) <==> crate::webhooks::flow_of(
            incoming_event(value),
        ) == WebhookFlow::Payment,
{
}

/// A report that is read as the answer to a request for the state of a refund leads to the
/// refund of the reported transaction, with the status that the report's sale status tells.
pub proof fn law_report_reads_as_refund_state<T>(
    value: WebhookEventDataResource,
    response: PaymeQueryTransactionResponse,
    before: RouterData<T, RefundsResponseData>,
    after: RouterData<T, RefundsResponseData>,
    http_code: u16,
)
    requires
        is_reported_transaction(response, value),
        crate::payme::refunds::took_over_refund_state(
            before,
            Ok(after),
            response.items@,
            http_code,
        ),
        value.sale_status is Refunded || value.sale_status is PartialRefund,
    ensures
        after.response == Ok::<RefundsResponseData, crate::router_data::ErrorResponse>(
            RefundsResponseData {
                connector_refund_id: value.payme_transaction_id,
                refund_status: RefundStatus::Success,
            },
        ),
{
}

} // verus!
