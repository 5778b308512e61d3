//! Refunds at Checkout.
use vstd::prelude::*;
use crate::checkout::captures::ActionResponse;
use crate::checkout::payments::CheckoutRouterData;
use crate::enums::{MinorUnit, RefundStatus};
use crate::errors::ConnectorError;
use crate::router_data::{RefundsData, RefundsResponseData, RefundsRouterData, ResponseRouterData, RouterData};

verus! {

/// A request to refund a payment.
#[derive(Debug, PartialEq, Eq)]
pub struct RefundRequest {
    pub amount: Option<MinorUnit>,
    pub reference: String,
}

impl<'a, 'b> TryFrom<&'a CheckoutRouterData<&'b RefundsRouterData>> for RefundRequest {
    type Error = ConnectorError;

    fn try_from(item: &'a CheckoutRouterData<&'b RefundsRouterData>) -> (res: Result<Self, ConnectorError>) {
        Ok(
            RefundRequest {
                amount: Some(item.amount),
                reference: item.router_data.request.refund_id.clone(),
            },
        )
    }
}

impl<'a, 'b> vstd::std_specs::convert::TryFromSpecImpl<&'a CheckoutRouterData<&'b RefundsRouterData>> for RefundRequest {
    open spec fn obeys_try_from_spec() -> bool {
        true
    }

    open spec fn try_from_spec(item: &'a CheckoutRouterData<&'b RefundsRouterData>) -> Result<Self, ConnectorError> {
        Ok(
            RefundRequest {
                amount: Some(item.amount),
                reference: item.router_data.request.refund_id,
            },
        )
    }
}

/// The answer to a request to refund a payment.
#[derive(Debug, PartialEq, Eq)]
pub struct RefundResponse {
    pub action_id: String,
    pub reference: String,
}

/// The answer to a request to refund a payment, with its status.
#[derive(Debug, PartialEq, Eq)]
pub struct CheckoutRefundResponse {
    pub status: u16,
    pub response: RefundResponse,
}

/// Where a refund stands after the request for it.
pub open spec fn requested_refund_status(status: u16) -> RefundStatus {
    if status == 202 {
        RefundStatus::Success
    } else {
        RefundStatus::Failure
    }
}

impl<'a> From<&'a CheckoutRefundResponse> for RefundStatus {
    fn from(item: &'a CheckoutRefundResponse) -> (res: Self) {
        if item.status == 202 {
            Self::Success
        } else {
            Self::Failure
        }
    }
}

impl<'a> vstd::std_specs::convert::FromSpecImpl<&'a CheckoutRefundResponse> for RefundStatus {
    open spec fn obeys_from_spec() -> bool {
        true
    }

    open spec fn from_spec(item: &'a CheckoutRefundResponse) -> Self {
        requested_refund_status(item.status)
    }
}

impl TryFrom<ResponseRouterData<CheckoutRefundResponse, RefundsData, RefundsResponseData>> for RouterData<RefundsData, RefundsResponseData> {
    type Error = ConnectorError;

    fn try_from(item: ResponseRouterData<CheckoutRefundResponse, RefundsData, RefundsResponseData>) -> (res: Result<Self, ConnectorError>) {
        let refund_status = RefundStatus::from(&item.response);
        Ok(
            RouterData {
                response: Ok(
                    RefundsResponseData {
                        connector_refund_id: item.response.response.action_id,
                        refund_status,
                    },
                ),
                ..item.data
            },
        )
    }
}

impl vstd::std_specs::convert::TryFromSpecImpl<ResponseRouterData<CheckoutRefundResponse, RefundsData, RefundsResponseData>> for RouterData<RefundsData, RefundsResponseData> {
    open spec fn obeys_try_from_spec() -> bool {
        true
    }

    open spec fn try_from_spec(item: ResponseRouterData<CheckoutRefundResponse, RefundsData, RefundsResponseData>) -> Result<Self, ConnectorError> {
        Ok(
            RouterData {
                response: Ok(
                    RefundsResponseData {
                        connector_refund_id: item.response.response.action_id,
                        refund_status: requested_refund_status(item.response.status),
                    },
                ),
                ..item.data
            },
        )
    }
}

impl<'a> TryFrom<ResponseRouterData<&'a ActionResponse, RefundsData, RefundsResponseData>> for RouterData<RefundsData, RefundsResponseData> {
    type Error = ConnectorError;

    fn try_from(item: ResponseRouterData<&'a ActionResponse, RefundsData, RefundsResponseData>) -> (res: Result<Self, ConnectorError>) {
        let refund_status = RefundStatus::from(item.response);
        Ok(
            RouterData {
                response: Ok(
                    RefundsResponseData {
                        connector_refund_id: item.response.action_id.clone(),
                        refund_status,
                    },
                ),
                ..item.data
            },
        )
    }
}

impl<'a> vstd::std_specs::convert::TryFromSpecImpl<ResponseRouterData<&'a ActionResponse, RefundsData, RefundsResponseData>> for RouterData<RefundsData, RefundsResponseData> {
    open spec fn obeys_try_from_spec() -> bool {
        true
    }

    open spec fn try_from_spec(item: ResponseRouterData<&'a ActionResponse, RefundsData, RefundsResponseData>) -> Result<Self, ConnectorError> {
        Ok(
            RouterData {
                response: Ok(
                    RefundsResponseData {
                        connector_refund_id: item.response.action_id,
                        refund_status: crate::checkout::captures::approval_refund_status(
                            item.response.approved,
                        ),
                    },
                ),
                ..item.data
            },
        )
    }
}

} // verus!
