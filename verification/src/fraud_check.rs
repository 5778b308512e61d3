//! Fraud checks before a payment.
use vstd::prelude::*;
use crate::enums::{CaptureMethod, Currency, PaymentMethod};
use crate::errors::ApiErrorResponse;
use crate::payment_data::PaymentMethodData;
use crate::router_data::{ErrorResponse, OrderDetails, ResponseId, RouterData};

verus! {

/// Where a fraud check stands.
#[derive(Clone, Copy, Debug, PartialEq, Eq, Structural)]
pub enum FraudCheckStatus {
    Fraud,
    ManualReview,
    Pending,
    Legit,
    TransactionFailure,
}

/// Whether a payment is checked before or after it is made.
#[derive(Clone, Copy, Debug, PartialEq, Eq, Structural)]
pub enum FraudCheckType {
    PreFrm,
    PostFrm,
}

/// The last thing that was done for a fraud check.
#[derive(Clone, Copy, Debug, PartialEq, Eq, Structural)]
pub enum FraudCheckLastStep {
    Processing,
    CheckoutOrSale,
    TransactionOrRecordRefund,
    Fulfillment,
}

/// The record of a fraud check.
pub struct FraudCheck {
    pub frm_id: String,
    pub payment_id: String,
    pub merchant_id: String,
    pub attempt_id: String,
    pub created_at: time::PrimitiveDateTime,
    pub frm_name: String,
    pub frm_transaction_id: Option<String>,
    pub frm_transaction_type: FraudCheckType,
    pub frm_status: FraudCheckStatus,
    pub frm_score: Option<i32>,
    pub frm_reason: Option<serde_json::Value>,
    pub frm_error: Option<String>,
    pub payment_details: Option<serde_json::Value>,
    pub metadata: Option<serde_json::Value>,
    pub modified_at: time::PrimitiveDateTime,
    pub last_step: FraudCheckLastStep,
    pub payment_capture_method: Option<CaptureMethod>,
}

/// What changes in the record of a fraud check.
pub enum FraudCheckUpdate {
    ResponseUpdate {
        frm_status: FraudCheckStatus,
        frm_transaction_id: Option<String>,
        frm_reason: Option<serde_json::Value>,
        frm_score: Option<i32>,
        metadata: Option<serde_json::Value>,
        modified_at: time::PrimitiveDateTime,
        last_step: FraudCheckLastStep,
        payment_capture_method: Option<CaptureMethod>,
    },
    ErrorUpdate { status: FraudCheckStatus, error_message: Option<Option<String>> },
}

/// A payment that is to be checked. `X` is what else is known of it.
pub struct PaymentToFrmData<X> {
    pub payment_id: String,
    pub merchant_id: String,
    pub attempt_id: String,
    pub capture_method: Option<CaptureMethod>,
    pub context: X,
}

/// A payment under a fraud check. `X` is what else is known of it, `R` a refund.
pub struct FrmData<X, R> {
    pub payment_id: String,
    pub merchant_id: String,
    pub attempt_id: String,
    pub capture_method: Option<CaptureMethod>,
    pub context: X,
    pub fraud_check: FraudCheck,
    pub refund: Option<R>,
}

/// Whether a character is a lower case hexadecimal digit.
pub open spec fn is_hex_char(c: char) -> bool {
    48 <= c as int <= 57 || 97 <= c as int <= 102
}

/// Whether a text is a random id: 32 lower case hexadecimal digits, with the version and
/// the variant of such ids in their places.
pub open spec fn is_random_id(s: Seq<char>) -> bool {
    &&& s.len() == 32
    &&& forall|i: int| 0 <= i < 32 ==> is_hex_char(#[trigger] s[i])
    &&& s[12] == '4'
    &&& s[16] == '8' || s[16] == '9' || s[16] == 'a' || s[16] == 'b'
}

/// `uuid::Uuid::new_v4`, written by `simple`: a random id. Which one is left to chance.
#[verifier::external_body]
fn random_id() -> (res: String)
    ensures
        is_random_id(res@),
{
    uuid::Uuid::new_v4().simple().to_string()
}

/// A new id for a fraud check.
pub fn new_frm_id() -> (res: String)
    ensures
        is_random_id(res@),
{
    random_id()
}

/// What a new fraud check is made from, beside the payment.
pub struct FraudCheckDraft {
    pub frm_id: String,
    pub frm_name: String,
    pub payment_details: Option<serde_json::Value>,
    pub created_at: time::PrimitiveDateTime,
    pub modified_at: time::PrimitiveDateTime,
}

/// The record of a new fraud check.
pub open spec fn new_fraud_check<X>(payment: PaymentToFrmData<X>, draft: FraudCheckDraft) -> FraudCheck {
    FraudCheck {
        frm_id: draft.frm_id,
        payment_id: payment.payment_id,
        merchant_id: payment.merchant_id,
        attempt_id: payment.attempt_id,
        created_at: draft.created_at,
        frm_name: draft.frm_name,
        frm_transaction_id: None,
        frm_transaction_type: FraudCheckType::PreFrm,
        frm_status: FraudCheckStatus::Pending,
        frm_score: None,
        frm_reason: None,
        frm_error: None,
        payment_details: draft.payment_details,
        metadata: None,
        modified_at: draft.modified_at,
        last_step: FraudCheckLastStep::Processing,
        payment_capture_method: payment.capture_method,
    }
}

/// What to do to get the record of a fraud check.
pub enum TrackerStep {
    /// Use the one that is there.
    Use(FraudCheck),
    /// Store this one.
    Insert(FraudCheck),
}

/// Finds the record of a fraud check, and takes a payment under it.
pub trait GetTracker<X> {
    /// What to do to get the record. `existing` is what looking for it gave; a failed look
    /// counts as nothing found.
    fn get_trackers(
        &self,
        existing: Option<FraudCheck>,
        payment_data: &PaymentToFrmData<X>,
        draft: FraudCheckDraft,
    ) -> (res: TrackerStep);

    /// Takes a payment under its record, with no refund; nothing where the record could not be
    /// stored.
    fn take_under<R>(
        &self,
        fraud_check: Option<FraudCheck>,
        payment_data: PaymentToFrmData<X>,
    ) -> (res: Option<FrmData<X, R>>)
        ensures
            res is Some <==> fraud_check is Some,
            res matches Some(taken) ==> {
                &&& fraud_check == Some(taken.fraud_check)
                &&& taken.payment_id == payment_data.payment_id
                &&& taken.merchant_id == payment_data.merchant_id
                &&& taken.attempt_id == payment_data.attempt_id
                &&& taken.capture_method == payment_data.capture_method
                &&& taken.context == payment_data.context
                &&& taken.refund is None
            },
    ;
}

/// What a fraud check service is told before a payment.
pub struct FraudCheckCheckoutData {
    pub amount: i64,
    pub order_details: Option<Vec<OrderDetails>>,
    pub currency: Option<Currency>,
    pub browser_info: Option<serde_json::Value>,
    pub payment_method_data: Option<PaymentMethodData>,
    pub email: Option<String>,
    pub gateway: Option<String>,
}

/// What a fraud check service is told after a payment.
pub struct FraudCheckTransactionData {
    pub amount: i64,
    pub order_details: Option<Vec<OrderDetails>>,
    pub currency: Option<Currency>,
    pub payment_method: Option<PaymentMethod>,
    pub error_code: Option<String>,
    pub error_message: Option<String>,
    pub connector_transaction_id: Option<String>,
    pub connector: Option<String>,
}

/// What a fraud check service answers.
#[allow(inconsistent_fields)]
pub enum FraudCheckResponseData {
    TransactionResponse {
        resource_id: ResponseId,
        connector_metadata: Option<serde_json::Value>,
        status: FraudCheckStatus,
        reason: Option<serde_json::Value>,
        score: Option<i32>,
    },
    FulfillmentResponse { order_id: String, shipment_ids: Vec<String> },
    RecordReturnResponse {
        resource_id: ResponseId,
        connector_metadata: Option<serde_json::Value>,
        return_id: Option<String>,
    },
}

/// A call of a fraud check service, by what it was told.
pub enum FrmRequest {
    Checkout(Box<FraudCheckCheckoutData>),
    Transaction(FraudCheckTransactionData),
}

/// A call of a fraud check service, by what it answered.
pub enum FrmResponse {
    Sale(Result<FraudCheckResponseData, ErrorResponse>),
    Checkout(Result<FraudCheckResponseData, ErrorResponse>),
    Transaction(Result<FraudCheckResponseData, ErrorResponse>),
    Fulfillment(Result<FraudCheckResponseData, ErrorResponse>),
    RecordReturn(Result<FraudCheckResponseData, ErrorResponse>),
}

/// A call of a fraud check service.
pub struct FrmRouterData {
    pub merchant_id: String,
    pub connector: String,
    pub payment_id: String,
    pub attempt_id: String,
    pub request: FrmRequest,
    pub response: FrmResponse,
}

/// Data under a fraud check of which another step was done.
pub open spec fn with_last_step<X, R>(data: FrmData<X, R>, last_step: FraudCheckLastStep) -> FrmData<X, R> {
    FrmData { fraud_check: FraudCheck { last_step, ..data.fraud_check }, ..data }
}

/// Takes over the calls of a fraud check service.
pub trait Domain<X, R> {
    /// Takes over a call after a payment.
    fn post_payment_frm(
        &self,
        frm_data: &mut FrmData<X, R>,
        router_data: RouterData<FraudCheckTransactionData, FraudCheckResponseData>,
    ) -> (res: Option<FrmRouterData>);

    /// Takes over a call before a payment.
    fn pre_payment_frm(
        &self,
        frm_data: &mut FrmData<X, R>,
        router_data: RouterData<FraudCheckCheckoutData, FraudCheckResponseData>,
    ) -> (res: FrmRouterData);

    /// What is done after a call, beside taking it over: nothing, where a check does not say
    /// otherwise.
    fn execute_post_tasks(&self, frm_data: FrmData<X, R>) -> (res: Option<FrmData<X, R>>)
        default_ensures
            res == Some(frm_data),
    {
        Some(frm_data)
    }
}

/// The id that an answer gives its transaction.
pub open spec fn transaction_id_of(resource_id: ResponseId) -> Option<String> {
    match resource_id {
        ResponseId::NoResponseId => None,
        ResponseId::ConnectorTransactionId(id) => Some(id),
        ResponseId::EncodedData(id) => Some(id),
    }
}

/// What an answer is told to have been where it does not fit a check before a payment.
pub open spec fn unexpected_return() -> Seq<char> {
    "Error: Got Record Return Response response in current Checkout flow"@
}

/// What an answer is told to have been where it belongs to another check.
pub open spec fn unexpected_flow() -> Seq<char> {
    "Error: Got Pre(Sale) flow response in current post flow"@
}

/// Whether an update marks a check as failed, with this message.
pub open spec fn is_failure_update(update: Option<FraudCheckUpdate>, message: Seq<char>) -> bool {
    &&& update matches Some(FraudCheckUpdate::ErrorUpdate { status, error_message })
    &&& status == FraudCheckStatus::TransactionFailure
    &&& error_message matches Some(Some(text))
    &&& text@ == message
}

/// Whether an update is the one that an answer leads to, for the record of a check.
/// `message_status` is the status that the payment was told.
pub open spec fn is_check_update(
    update: Option<FraudCheckUpdate>,
    response: FrmResponse,
    fraud_check: FraudCheck,
    message_status: Option<FraudCheckStatus>,
    now: time::PrimitiveDateTime,
) -> bool {
    match response {
        FrmResponse::Checkout(Err(error)) => is_failure_update(update, error.message@),
        FrmResponse::Transaction(Err(error)) => is_failure_update(update, error.message@),
        FrmResponse::Checkout(Ok(FraudCheckResponseData::TransactionResponse {
            resource_id,
            connector_metadata,
            status,
            reason,
            score,
        })) => update == Some(
            FraudCheckUpdate::ResponseUpdate {
                frm_status: status,
                frm_transaction_id: transaction_id_of(resource_id),
                frm_reason: reason,
                frm_score: score,
                metadata: connector_metadata,
                modified_at: now,
                last_step: fraud_check.last_step,
                payment_capture_method: fraud_check.payment_capture_method,
            },
        ),
        FrmResponse::Transaction(Ok(FraudCheckResponseData::TransactionResponse {
            resource_id,
            connector_metadata,
            status,
            reason,
            score,
        })) => update == Some(
            FraudCheckUpdate::ResponseUpdate {
                frm_status: match message_status {
                    Some(told) => told,
                    None => status,
                },
                frm_transaction_id: transaction_id_of(resource_id),
                frm_reason: reason,
                frm_score: score,
                metadata: connector_metadata,
                modified_at: now,
                last_step: fraud_check.last_step,
                payment_capture_method: None,
            },
        ),
        FrmResponse::Checkout(Ok(FraudCheckResponseData::FulfillmentResponse { .. })) => update
            is None,
        FrmResponse::Transaction(Ok(FraudCheckResponseData::FulfillmentResponse { .. })) => update
            is None,
        FrmResponse::Checkout(Ok(FraudCheckResponseData::RecordReturnResponse { .. })) =>
        is_failure_update(update, unexpected_return()),
        FrmResponse::Transaction(Ok(FraudCheckResponseData::RecordReturnResponse { .. })) =>
        is_failure_update(update, unexpected_return()),
        FrmResponse::Sale(_) | FrmResponse::Fulfillment(_) | FrmResponse::RecordReturn(_) =>
        is_failure_update(update, unexpected_flow()),
    }
}

/// Takes an answer into the record of a fraud check.
pub trait UpdateTracker {
    /// The change of the record of a check that an answer leads to, if any.
    fn update_tracker(
        &self,
        fraud_check: &FraudCheck,
        message_status: Option<FraudCheckStatus>,
        response: FrmResponse,
        now: time::PrimitiveDateTime,
    ) -> (res: Option<FraudCheckUpdate>);

    /// The data after its record was changed. `stored` is the record as it was stored, where
    /// there was a change; a record that could not be stored is an error.
    fn take_over<X, R>(
        &self,
        frm_data: FrmData<X, R>,
        stored: Option<Option<FraudCheck>>,
    ) -> (res: Result<FrmData<X, R>, ApiErrorResponse>)
        ensures
            res is Err <==> stored == Some(None::<FraudCheck>),
            res matches Err(error) ==> error is PaymentNotFound,
            res matches Ok(after) ==> {
                &&& stored is None ==> after.fraud_check == frm_data.fraud_check
                &&& stored is Some ==> stored->0 == Some(after.fraud_check)
                &&& after.payment_id == frm_data.payment_id
                &&& after.merchant_id == frm_data.merchant_id
                &&& after.attempt_id == frm_data.attempt_id
                &&& after.capture_method == frm_data.capture_method
                &&& after.context == frm_data.context
                &&& after.refund == frm_data.refund
            },
    ;
}

/// A fraud check, by the parts of it that it has.
pub trait FraudCheckOperation {
    /// What finds the record: a [`GetTracker`] of the payments that are checked.
    type Tracker;

    /// What takes over calls: a [`Domain`] of the payments that are checked.
    type Calls;

    /// What changes the record.
    type Updater: UpdateTracker;

    /// The part that finds the record, if there is one.
    fn to_get_tracker(&self) -> (res: Result<&Self::Tracker, ApiErrorResponse>)
        default_ensures
            res == Err::<&Self::Tracker, ApiErrorResponse>(ApiErrorResponse::InternalServerError),
    {
        Err(ApiErrorResponse::InternalServerError)
    }

    /// The part that takes over calls, if there is one.
    fn to_domain(&self) -> (res: Result<&Self::Calls, ApiErrorResponse>)
        default_ensures
            res == Err::<&Self::Calls, ApiErrorResponse>(ApiErrorResponse::InternalServerError),
    {
        Err(ApiErrorResponse::InternalServerError)
    }

    /// The part that changes the record, if there is one.
    fn to_update_tracker(&self) -> (res: Result<&Self::Updater, ApiErrorResponse>)
        default_ensures
            res == Err::<&Self::Updater, ApiErrorResponse>(ApiErrorResponse::InternalServerError),
    {
        Err(ApiErrorResponse::InternalServerError)
    }
}

/// The fraud check before a payment.
#[derive(Clone, Copy, Debug, PartialEq, Eq, Structural)]
pub struct FraudCheckPre;

impl FraudCheckOperation for FraudCheckPre {
    type Tracker = FraudCheckPre;

    type Calls = FraudCheckPre;

    type Updater = FraudCheckPre;

    fn to_get_tracker(&self) -> (res: Result<&FraudCheckPre, ApiErrorResponse>)
        ensures
            res == Ok::<&FraudCheckPre, ApiErrorResponse>(self),
    {
        Ok(self)
    }

    fn to_domain(&self) -> (res: Result<&FraudCheckPre, ApiErrorResponse>)
        ensures
            res == Ok::<&FraudCheckPre, ApiErrorResponse>(self),
    {
        Ok(self)
    }

    fn to_update_tracker(&self) -> (res: Result<&FraudCheckPre, ApiErrorResponse>)
        ensures
            res == Ok::<&FraudCheckPre, ApiErrorResponse>(self),
    {
        Ok(self)
    }
}

impl<X> GetTracker<X> for FraudCheckPre {
    fn get_trackers(
        &self,
        existing: Option<FraudCheck>,
        payment_data: &PaymentToFrmData<X>,
        draft: FraudCheckDraft,
    ) -> (res: TrackerStep)
        ensures
            res == (match existing {
                Some(fraud_check) => TrackerStep::Use(fraud_check),
                None => TrackerStep::Insert(new_fraud_check(*payment_data, draft)),
            }),
    {
        match existing {
            Some(fraud_check) => TrackerStep::Use(fraud_check),
            None => TrackerStep::Insert(
                FraudCheck {
                    frm_id: draft.frm_id,
                    payment_id: payment_data.payment_id.clone(),
                    merchant_id: payment_data.merchant_id.clone(),
                    attempt_id: payment_data.attempt_id.clone(),
                    created_at: draft.created_at,
                    frm_name: draft.frm_name,
                    frm_transaction_id: None,
                    frm_transaction_type: FraudCheckType::PreFrm,
                    frm_status: FraudCheckStatus::Pending,
                    frm_score: None,
                    frm_reason: None,
                    frm_error: None,
                    payment_details: draft.payment_details,
                    metadata: None,
                    modified_at: draft.modified_at,
                    last_step: FraudCheckLastStep::Processing,
                    payment_capture_method: payment_data.capture_method,
                },
            ),
        }
    }

    fn take_under<R>(
        &self,
        fraud_check: Option<FraudCheck>,
        payment_data: PaymentToFrmData<X>,
    ) -> (res: Option<FrmData<X, R>>)
        ensures
            res == (match fraud_check {
                Some(fraud_check) => Some(
                    (FrmData::<X, R> {
                        payment_id: payment_data.payment_id,
                        merchant_id: payment_data.merchant_id,
                        attempt_id: payment_data.attempt_id,
                        capture_method: payment_data.capture_method,
                        context: payment_data.context,
                        fraud_check,
                        refund: None,
                    }),
                ),
                None => None,
            }),
    {
        match fraud_check {
            Some(fraud_check) => Some(
                FrmData {
                    payment_id: payment_data.payment_id,
                    merchant_id: payment_data.merchant_id,
                    attempt_id: payment_data.attempt_id,
                    capture_method: payment_data.capture_method,
                    context: payment_data.context,
                    fraud_check,
                    refund: None,
                },
            ),
            None => None,
        }
    }
}

impl<X, R> Domain<X, R> for FraudCheckPre {
    fn post_payment_frm(
        &self,
        frm_data: &mut FrmData<X, R>,
        router_data: RouterData<FraudCheckTransactionData, FraudCheckResponseData>,
    ) -> (res: Option<FrmRouterData>)
        ensures
            *final(frm_data) == with_last_step(
                *old(frm_data),
                FraudCheckLastStep::TransactionOrRecordRefund,
            ),
            res == Some(
                (FrmRouterData {
                    merchant_id: router_data.merchant_id,
                    connector: router_data.connector,
                    payment_id: router_data.payment_id,
                    attempt_id: router_data.attempt_id,
                    request: FrmRequest::Transaction(
                        (FraudCheckTransactionData {
                            payment_method: Some(router_data.payment_method),
                            ..router_data.request
                        }),
                    ),
                    response: FrmResponse::Transaction(router_data.response),
                }),
            ),
    {
        frm_data.fraud_check.last_step = FraudCheckLastStep::TransactionOrRecordRefund;
        Some(
            FrmRouterData {
                merchant_id: router_data.merchant_id,
                connector: router_data.connector,
                payment_id: router_data.payment_id,
                attempt_id: router_data.attempt_id,
                request: FrmRequest::Transaction(
                    FraudCheckTransactionData {
                        amount: router_data.request.amount,
                        order_details: router_data.request.order_details,
                        currency: router_data.request.currency,
                        payment_method: Some(router_data.payment_method),
                        error_code: router_data.request.error_code,
                        error_message: router_data.request.error_message,
                        connector_transaction_id: router_data.request.connector_transaction_id,
                        connector: router_data.request.connector,
                    },
                ),
                response: FrmResponse::Transaction(router_data.response),
            },
        )
    }

    fn pre_payment_frm(
        &self,
        frm_data: &mut FrmData<X, R>,
        router_data: RouterData<FraudCheckCheckoutData, FraudCheckResponseData>,
    ) -> (res: FrmRouterData)
        ensures
            *final(frm_data) == with_last_step(*old(frm_data), FraudCheckLastStep::CheckoutOrSale),
            res == (FrmRouterData {
                merchant_id: router_data.merchant_id,
                connector: router_data.connector,
                payment_id: router_data.payment_id,
                attempt_id: router_data.attempt_id,
                request: FrmRequest::Checkout(Box::new(router_data.request)),
                response: FrmResponse::Checkout(router_data.response),
            }),
    {
        frm_data.fraud_check.last_step = FraudCheckLastStep::CheckoutOrSale;
        FrmRouterData {
            merchant_id: router_data.merchant_id,
            connector: router_data.connector,
            payment_id: router_data.payment_id,
            attempt_id: router_data.attempt_id,
            request: FrmRequest::Checkout(Box::new(router_data.request)),
            response: FrmResponse::Checkout(router_data.response),
        }
    }
}

fn transaction_id(resource_id: ResponseId) -> (res: Option<String>)
    ensures
        res == transaction_id_of(resource_id),
{
    match resource_id {
        ResponseId::NoResponseId => None,
        ResponseId::ConnectorTransactionId(id) => Some(id),
        ResponseId::EncodedData(id) => Some(id),
    }
}

fn failure_update(message: String) -> (res: Option<FraudCheckUpdate>)
    ensures
        is_failure_update(res, message@),
{
    Some(
        FraudCheckUpdate::ErrorUpdate {
            status: FraudCheckStatus::TransactionFailure,
            error_message: Some(Some(message)),
        },
    )
}

impl UpdateTracker for FraudCheckPre {
    fn update_tracker(
        &self,
        fraud_check: &FraudCheck,
        message_status: Option<FraudCheckStatus>,
        response: FrmResponse,
        now: time::PrimitiveDateTime,
    ) -> (res: Option<FraudCheckUpdate>)
        ensures
            is_check_update(res, response, *fraud_check, message_status, now),
    {
        match response {
            FrmResponse::Checkout(response) => match response {
                Err(error) => failure_update(error.message),
                Ok(answer) => match answer {
                    FraudCheckResponseData::TransactionResponse {
                        resource_id,
                        connector_metadata,
                        status,
                        reason,
                        score,
                    } => Some(
                        FraudCheckUpdate::ResponseUpdate {
                            frm_status: status,
                            frm_transaction_id: transaction_id(resource_id),
                            frm_reason: reason,
                            frm_score: score,
                            metadata: connector_metadata,
                            modified_at: now,
                            last_step: fraud_check.last_step,
                            payment_capture_method: fraud_check.payment_capture_method,
                        },
                    ),
                    FraudCheckResponseData::FulfillmentResponse { .. } => None,
                    FraudCheckResponseData::RecordReturnResponse { .. } => failure_update(
                        "Error: Got Record Return Response response in current Checkout flow".to_string(),
                    ),
                },
            },
            FrmResponse::Transaction(response) => match response {
                Err(error) => failure_update(error.message),
                Ok(answer) => match answer {
                    FraudCheckResponseData::TransactionResponse {
                        resource_id,
                        connector_metadata,
                        status,
                        reason,
                        score,
                    } => {
                        let frm_status = match message_status {
                            Some(told) => told,
                            None => status,
                        };
                        Some(
                            FraudCheckUpdate::ResponseUpdate {
                                frm_status,
                                frm_transaction_id: transaction_id(resource_id),
                                frm_reason: reason,
                                frm_score: score,
                                metadata: connector_metadata,
                                modified_at: now,
                                last_step: fraud_check.last_step,
                                payment_capture_method: None,
                            },
                        )
                    },
                    FraudCheckResponseData::FulfillmentResponse { .. } => None,
                    FraudCheckResponseData::RecordReturnResponse { .. } => failure_update(
                        "Error: Got Record Return Response response in current Checkout flow".to_string(),
                    ),
                },
            },
            FrmResponse::Sale(_) | FrmResponse::Fulfillment(_) | FrmResponse::RecordReturn(_) => {
                failure_update("Error: Got Pre(Sale) flow response in current post flow".to_string())
            },
        }
    }

    fn take_over<X, R>(
        &self,
        frm_data: FrmData<X, R>,
        stored: Option<Option<FraudCheck>>,
    ) -> (res: Result<FrmData<X, R>, ApiErrorResponse>)
        ensures
            match stored {
                None => res == Ok::<FrmData<X, R>, ApiErrorResponse>(frm_data),
                Some(Some(fraud_check)) => res == Ok::<FrmData<X, R>, ApiErrorResponse>(
                    (FrmData { fraud_check, ..frm_data }),
                ),
                Some(None) => res == Err::<FrmData<X, R>, ApiErrorResponse>(
                    ApiErrorResponse::PaymentNotFound,
                ),
            },
    {
        match stored {
            None => Ok(frm_data),
            Some(Some(fraud_check)) => Ok(FrmData { fraud_check, ..frm_data }),
            Some(None) => Err(ApiErrorResponse::PaymentNotFound),
        }
    }
}

/// The status that an update sets, if any.
pub open spec fn status_set(update: Option<FraudCheckUpdate>) -> Option<FraudCheckStatus> {
    match update {
        None => None,
        Some(FraudCheckUpdate::ResponseUpdate { frm_status, .. }) => Some(frm_status),
        Some(FraudCheckUpdate::ErrorUpdate { status, .. }) => Some(status),
    }
}

/// A payment is found legitimate only where the service said so, or where the payment was
/// told so after it was made.
pub proof fn law_legitimate_only_as_told(
    update: Option<FraudCheckUpdate>,
    response: FrmResponse,
    fraud_check: FraudCheck,
    message_status: Option<FraudCheckStatus>,
    now: time::PrimitiveDateTime,
)
    requires
        is_check_update(update, response, fraud_check, message_status, now),
    ensures
        status_set(update) == Some(FraudCheckStatus::Legit) <==> (match response {
            FrmResponse::Checkout(Ok(FraudCheckResponseData::TransactionResponse {
                status,
                ..
            })) => status is Legit,
            FrmResponse::Transaction(Ok(FraudCheckResponseData::TransactionResponse {
                status,
                ..
            })) => message_status == Some(FraudCheckStatus::Legit) || (message_status is None
                && status is Legit),
            _ => false,
        }),
{
}

/// A record changes unless the answer only tells of a fulfilment.
pub proof fn law_only_fulfilment_changes_nothing(
    update: Option<FraudCheckUpdate>,
    response: FrmResponse,
    fraud_check: FraudCheck,
    message_status: Option<FraudCheckStatus>,
    now: time::PrimitiveDateTime,
)
    requires
        is_check_update(update, response, fraud_check, message_status, now),
    ensures
        update is None <==> (match response {
            FrmResponse::Checkout(Ok(answer)) => answer is FulfillmentResponse,
            FrmResponse::Transaction(Ok(answer)) => answer is FulfillmentResponse,
            _ => false,
        }),
{
}

} // verus!
