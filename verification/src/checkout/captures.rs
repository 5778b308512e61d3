//! Captures and cancellations at Checkout.
use vstd::prelude::*;
use crate::checkout::payments::{get_attempt_status_bal, CheckoutAuthType, CheckoutMeta, CheckoutPaymentIntent, CheckoutPaymentStatus, CheckoutRouterData, PaymentsResponse};
use crate::enums::{AttemptStatus, MinorUnit, RefundStatus};
use crate::errors::ConnectorError;
use crate::router_data::{CaptureSync, PaymentsCancelData, PaymentsCancelRouterData, PaymentsCaptureData, PaymentsCaptureRouterData, PaymentsResponseData, PaymentsSyncData, ResponseId, ResponseRouterData, RouterData};
use crate::secret::Secret;
use crate::text::{clone_optional, clone_or};

verus! {

/// Whether more captures follow.
#[derive(Clone, Copy, Debug, PartialEq, Eq, Structural)]
pub enum CaptureType {
    Final,
    NonFinal,
}

/// A request to capture a payment.
pub struct PaymentCaptureRequest {
    pub amount: Option<MinorUnit>,
    pub capture_type: Option<CaptureType>,
    pub processing_channel_id: Secret<String>,
    /// The switch's own reference for this capture.
    pub reference: Option<String>,
}

impl<'a, 'b> TryFrom<&'a CheckoutRouterData<&'b PaymentsCaptureRouterData>> for PaymentCaptureRequest {
    type Error = ConnectorError;

    fn try_from(item: &'a CheckoutRouterData<&'b PaymentsCaptureRouterData>) -> (res: Result<Self, ConnectorError>) {
        let processing_channel_id = match CheckoutAuthType::try_from(
            &item.router_data.connector_auth_type,
        ) {
            Ok(auth) => auth.processing_channel_id,
            Err(error) => {
                return Err(error);
            },
        };
        let capture_type = if item.router_data.request.is_multiple_capture() {
            CaptureType::NonFinal
        } else {
            CaptureType::Final
        };
        let reference = match &item.router_data.request.multiple_capture_data {
            Some(data) => Some(data.capture_reference.clone()),
            None => None,
        };
        Ok(
            PaymentCaptureRequest {
                amount: Some(item.amount),
                capture_type: Some(capture_type),
                processing_channel_id,
                reference,
            },
        )
    }
}

impl<'a, 'b> vstd::std_specs::convert::TryFromSpecImpl<&'a CheckoutRouterData<&'b PaymentsCaptureRouterData>> for PaymentCaptureRequest {
    open spec fn obeys_try_from_spec() -> bool {
        true
    }

    open spec fn try_from_spec(item: &'a CheckoutRouterData<&'b PaymentsCaptureRouterData>) -> Result<Self, ConnectorError> {
        match crate::checkout::payments::checkout_auth(item.router_data.connector_auth_type) {
            Err(error) => Err(error),
            Ok(auth) => Ok(
                PaymentCaptureRequest {
                    amount: Some(item.amount),
                    capture_type: Some(
                        if item.router_data.request.multiple_capture_data is Some {
                            CaptureType::NonFinal
                        } else {
                            CaptureType::Final
                        },
                    ),
                    processing_channel_id: auth.processing_channel_id,
                    reference: match item.router_data.request.multiple_capture_data {
                        Some(data) => Some(data.capture_reference),
                        None => None,
                    },
                },
            ),
        }
    }
}

/// The answer to a request to capture a payment.
#[derive(Debug, PartialEq, Eq)]
pub struct PaymentCaptureResponse {
    pub action_id: String,
    pub reference: Option<String>,
}

impl TryFrom<ResponseRouterData<PaymentCaptureResponse, PaymentsCaptureData, PaymentsResponseData>> for RouterData<PaymentsCaptureData, PaymentsResponseData> {
    type Error = ConnectorError;

    fn try_from(item: ResponseRouterData<PaymentCaptureResponse, PaymentsCaptureData, PaymentsResponseData>) -> (res: Result<Self, ConnectorError>) {
        let connector_meta = CheckoutMeta { psync_flow: CheckoutPaymentIntent::Capture };
        let (status, amount_captured) = if item.http_code == 202 {
            (AttemptStatus::Charged, Some(item.data.request.amount_to_capture))
        } else {
            (AttemptStatus::Pending, None)
        };
        // One of several captures is known by its own id, so that it is found again among
        // them; a single capture keeps the id of the payment.
        let resource_id = if item.data.request.is_multiple_capture() {
            item.response.action_id
        } else {
            item.data.request.connector_transaction_id.clone()
        };
        Ok(
            RouterData {
                response: Ok(
                    PaymentsResponseData::TransactionResponse {
                        resource_id: ResponseId::ConnectorTransactionId(resource_id),
                        redirection_data: None,
                        mandate_reference: None,
                        connector_metadata: Some(connector_meta),
                        network_txn_id: None,
                        connector_response_reference_id: item.response.reference,
                        incremental_authorization_allowed: None,
                    },
                ),
                status,
                amount_captured,
                ..item.data
            },
        )
    }
}

impl vstd::std_specs::convert::TryFromSpecImpl<ResponseRouterData<PaymentCaptureResponse, PaymentsCaptureData, PaymentsResponseData>> for RouterData<PaymentsCaptureData, PaymentsResponseData> {
    open spec fn obeys_try_from_spec() -> bool {
        true
    }

    open spec fn try_from_spec(item: ResponseRouterData<PaymentCaptureResponse, PaymentsCaptureData, PaymentsResponseData>) -> Result<Self, ConnectorError> {
        Ok(
            RouterData {
                response: Ok(
                    PaymentsResponseData::plain_transaction(
                        ResponseId::ConnectorTransactionId(
                            if item.data.request.multiple_capture_data is Some {
                                item.response.action_id
                            } else {
                                item.data.request.connector_transaction_id
                            },
                        ),
                        Some(CheckoutMeta { psync_flow: CheckoutPaymentIntent::Capture }),
                        item.response.reference,
                    ),
                ),
                status: if item.http_code == 202 {
                    AttemptStatus::Charged
                } else {
                    AttemptStatus::Pending
                },
                amount_captured: if item.http_code == 202 {
                    Some(item.data.request.amount_to_capture)
                } else {
                    None
                },
                ..item.data
            },
        )
    }
}

// ---------------------------------------------------------------------------
// Reading the state of captures
// ---------------------------------------------------------------------------

/// What an action on a payment was.
#[derive(Clone, Copy, Debug, PartialEq, Eq, Structural)]
pub enum ActionType {
    Authorization,
    Void,
    Capture,
    Refund,
    Payout,
    Return,
    CardVerification,
}

/// An action on a payment.
#[derive(Debug, PartialEq, Eq)]
pub struct ActionResponse {
    pub action_id: String,
    pub amount: MinorUnit,
    pub action_type: ActionType,
    pub approved: Option<bool>,
    pub reference: Option<String>,
}

/// Where a refund stands, given whether it was approved.
pub open spec fn approval_refund_status(approved: Option<bool>) -> RefundStatus {
    match approved {
        Some(true) => RefundStatus::Success,
        Some(false) => RefundStatus::Failure,
        None => RefundStatus::Pending,
    }
}

impl<'a> From<&'a ActionResponse> for RefundStatus {
    fn from(item: &'a ActionResponse) -> (res: Self) {
        match item.approved {
            Some(true) => Self::Success,
            Some(false) => Self::Failure,
            None => Self::Pending,
        }
    }
}

impl<'a> vstd::std_specs::convert::FromSpecImpl<&'a ActionResponse> for RefundStatus {
    open spec fn obeys_from_spec() -> bool {
        true
    }

    open spec fn from_spec(item: &'a ActionResponse) -> Self {
        approval_refund_status(item.approved)
    }
}

/// What is told about one of several captures, as plain values.
pub struct CaptureTold {
    pub connector_capture_id: Seq<char>,
    pub status: AttemptStatus,
    pub connector_reference_id: Option<String>,
    pub is_capture_response: bool,
    pub amount: Option<MinorUnit>,
}

/// What Checkout tells about one of several captures.
pub trait MultipleCaptureSyncResponse {
    /// All that is told.
    spec fn told(&self) -> CaptureTold;

    /// The id of the capture.
    fn get_connector_capture_id(&self) -> (res: String)
        ensures
            res@ == self.told().connector_capture_id,
    ;

    /// Where the capture stands.
    fn get_capture_attempt_status(&self) -> (res: AttemptStatus)
        ensures
            res == self.told().status,
    ;

    /// The switch's own reference for the capture.
    fn get_connector_reference_id(&self) -> (res: Option<String>)
        ensures
            res == self.told().connector_reference_id,
    ;

    /// Whether this is about a capture at all.
    fn is_capture_response(&self) -> (res: bool)
        ensures
            res == self.told().is_capture_response,
    ;

    /// The captured amount.
    fn get_amount_captured(&self) -> (res: Option<MinorUnit>)
        ensures
            res == self.told().amount,
    ;
}

/// Whether an account of a capture says what was told.
pub open spec fn says(capture: CaptureSync, told: CaptureTold) -> bool {
    &&& capture.connector_capture_id@ == told.connector_capture_id
    &&& capture.status == told.status
    &&& capture.connector_reference_id == told.connector_reference_id
    &&& capture.is_capture_response == told.is_capture_response
    &&& capture.amount == told.amount
}

impl MultipleCaptureSyncResponse for ActionResponse {
    open spec fn told(&self) -> CaptureTold {
        CaptureTold {
            connector_capture_id: self.action_id@,
            status: match self.approved {
                Some(true) => AttemptStatus::Charged,
                Some(false) => AttemptStatus::Failure,
                None => AttemptStatus::Pending,
            },
            connector_reference_id: self.reference,
            is_capture_response: self.action_type == ActionType::Capture,
            amount: Some(self.amount),
        }
    }

    fn get_connector_capture_id(&self) -> (res: String) {
        self.action_id.clone()
    }

    fn get_capture_attempt_status(&self) -> (res: AttemptStatus) {
        match self.approved {
            Some(true) => AttemptStatus::Charged,
            Some(false) => AttemptStatus::Failure,
            None => AttemptStatus::Pending,
        }
    }

    fn get_connector_reference_id(&self) -> (res: Option<String>) {
        clone_optional(&self.reference)
    }

    fn is_capture_response(&self) -> (res: bool) {
        self.action_type == ActionType::Capture
    }

    fn get_amount_captured(&self) -> (res: Option<MinorUnit>) {
        Some(self.amount)
    }
}

impl MultipleCaptureSyncResponse for PaymentsResponse {
    open spec fn told(&self) -> CaptureTold {
        CaptureTold {
            connector_capture_id: crate::text::view_or(self.action_id, ""@),
            status: crate::checkout::payments::attempt_status_bal(self.status, self.balances),
            connector_reference_id: self.reference,
            is_capture_response: self.status == CheckoutPaymentStatus::Captured,
            amount: self.amount,
        }
    }

    fn get_connector_capture_id(&self) -> (res: String) {
        clone_or(&self.action_id, "")
    }

    fn get_capture_attempt_status(&self) -> (res: AttemptStatus) {
        get_attempt_status_bal((self.status, self.balances))
    }

    fn get_connector_reference_id(&self) -> (res: Option<String>) {
        clone_optional(&self.reference)
    }

    fn is_capture_response(&self) -> (res: bool) {
        self.status == CheckoutPaymentStatus::Captured
    }

    fn get_amount_captured(&self) -> (res: Option<MinorUnit>) {
        self.amount
    }
}

/// Gathers what Checkout tells about one of several captures.
pub fn capture_sync<T: MultipleCaptureSyncResponse>(response: &T) -> (res: CaptureSync)
    ensures
        says(res, response.told()),
{
    CaptureSync {
        connector_capture_id: response.get_connector_capture_id(),
        status: response.get_capture_attempt_status(),
        connector_reference_id: response.get_connector_reference_id(),
        is_capture_response: response.is_capture_response(),
        amount: response.get_amount_captured(),
    }
}

/// The answer to a request for the state of a payment with several captures.
pub enum PaymentsResponseEnum {
    ActionResponse(Vec<ActionResponse>),
    PaymentResponse(Box<PaymentsResponse>),
}

/// Whether a list tells, in order, what an answer tells about each capture.
pub open spec fn tells_captures(captures: Seq<CaptureSync>, response: PaymentsResponseEnum) -> bool {
    match response {
        PaymentsResponseEnum::PaymentResponse(payment) => {
            &&& captures.len() == 1
            &&& says(captures[0], payment.told())
        },
        PaymentsResponseEnum::ActionResponse(actions) => {
            &&& captures.len() == actions@.len()
            &&& forall|i: int|
                0 <= i < captures.len() ==> says(#[trigger] captures[i], actions@[i].told())
        },
    }
}

impl TryFrom<ResponseRouterData<PaymentsResponseEnum, PaymentsSyncData, PaymentsResponseData>> for RouterData<PaymentsSyncData, PaymentsResponseData> {
    type Error = ConnectorError;

    fn try_from(item: ResponseRouterData<PaymentsResponseEnum, PaymentsSyncData, PaymentsResponseData>) -> (res: Result<Self, ConnectorError>)
        ensures
            ({
                &&& res matches Ok(after)
                &&& after == (RouterData { response: after.response, ..item.data })
                &&& after.response matches Ok(
                    PaymentsResponseData::MultipleCaptureResponse { captures },
                )
                &&& tells_captures(captures@, item.response)
            }),
    {
        let mut captures: Vec<CaptureSync> = Vec::new();
        match &item.response {
            PaymentsResponseEnum::PaymentResponse(payment) => {
                captures.push(capture_sync(&**payment));
            },
            PaymentsResponseEnum::ActionResponse(actions) => {
                let mut i: usize = 0;
                while i < actions.len()
                    invariant
                        i <= actions.len(),
                        captures@.len() == i,
                        forall|j: int|
                            0 <= j < i ==> says(#[trigger] captures@[j], actions@[j].told()),
                    decreases actions.len() - i,
                {
                    captures.push(capture_sync(&actions[i]));
                    i = i + 1;
                }
            },
        }
        assert(tells_captures(captures@, item.response));
        Ok(
            RouterData {
                response: Ok(PaymentsResponseData::MultipleCaptureResponse { captures }),
                ..item.data
            },
        )
    }
}

impl vstd::std_specs::convert::TryFromSpecImpl<ResponseRouterData<PaymentsResponseEnum, PaymentsSyncData, PaymentsResponseData>> for RouterData<PaymentsSyncData, PaymentsResponseData> {
    open spec fn obeys_try_from_spec() -> bool {
        false
    }

    open spec fn try_from_spec(item: ResponseRouterData<PaymentsResponseEnum, PaymentsSyncData, PaymentsResponseData>) -> Result<Self, ConnectorError> {
        arbitrary()
    }
}

// ---------------------------------------------------------------------------
// Cancelling
// ---------------------------------------------------------------------------

/// A request to cancel a payment.
#[derive(Debug, PartialEq, Eq, Default)]
pub struct PaymentVoidRequest {
    pub reference: String,
}

/// The answer to a request to cancel a payment. The status is that of the answer itself.
#[derive(Debug, PartialEq, Eq, Default)]
pub struct PaymentVoidResponse {
    pub status: u16,
    pub action_id: String,
    pub reference: String,
}

/// Where an attempt stands after a request to cancel it.
pub open spec fn void_status(status: u16) -> AttemptStatus {
    if status == 202 {
        AttemptStatus::Voided
    } else {
        AttemptStatus::VoidFailed
    }
}

impl<'a> From<&'a PaymentVoidResponse> for AttemptStatus {
    fn from(item: &'a PaymentVoidResponse) -> (res: Self) {
        if item.status == 202 {
            Self::Voided
        } else {
            Self::VoidFailed
        }
    }
}

impl<'a> vstd::std_specs::convert::FromSpecImpl<&'a PaymentVoidResponse> for AttemptStatus {
    open spec fn obeys_from_spec() -> bool {
        true
    }

    open spec fn from_spec(item: &'a PaymentVoidResponse) -> Self {
        void_status(item.status)
    }
}

impl TryFrom<ResponseRouterData<PaymentVoidResponse, PaymentsCancelData, PaymentsResponseData>> for RouterData<PaymentsCancelData, PaymentsResponseData> {
    type Error = ConnectorError;

    fn try_from(item: ResponseRouterData<PaymentVoidResponse, PaymentsCancelData, PaymentsResponseData>) -> (res: Result<Self, ConnectorError>) {
        let status = AttemptStatus::from(&item.response);
        Ok(
            RouterData {
                response: Ok(
                    PaymentsResponseData::TransactionResponse {
                        resource_id: ResponseId::ConnectorTransactionId(item.response.action_id),
                        redirection_data: None,
                        mandate_reference: None,
                        connector_metadata: None,
                        network_txn_id: None,
                        connector_response_reference_id: None,
                        incremental_authorization_allowed: None,
                    },
                ),
                status,
                ..item.data
            },
        )
    }
}

impl vstd::std_specs::convert::TryFromSpecImpl<ResponseRouterData<PaymentVoidResponse, PaymentsCancelData, PaymentsResponseData>> for RouterData<PaymentsCancelData, PaymentsResponseData> {
    open spec fn obeys_try_from_spec() -> bool {
        true
    }

    open spec fn try_from_spec(item: ResponseRouterData<PaymentVoidResponse, PaymentsCancelData, PaymentsResponseData>) -> Result<Self, ConnectorError> {
        Ok(
            RouterData {
                response: Ok(
                    PaymentsResponseData::plain_transaction(
                        ResponseId::ConnectorTransactionId(item.response.action_id),
                        None,
                        None,
                    ),
                ),
                status: void_status(item.response.status),
                ..item.data
            },
        )
    }
}

impl<'a> TryFrom<&'a PaymentsCancelRouterData> for PaymentVoidRequest {
    type Error = ConnectorError;

    fn try_from(item: &'a PaymentsCancelRouterData) -> (res: Result<Self, ConnectorError>) {
        Ok(PaymentVoidRequest { reference: item.request.connector_transaction_id.clone() })
    }
}

impl<'a> vstd::std_specs::convert::TryFromSpecImpl<&'a PaymentsCancelRouterData> for PaymentVoidRequest {
    open spec fn obeys_try_from_spec() -> bool {
        true
    }

    open spec fn try_from_spec(item: &'a PaymentsCancelRouterData) -> Result<Self, ConnectorError> {
        Ok(PaymentVoidRequest { reference: item.request.connector_transaction_id })
    }
}

} // verus!
