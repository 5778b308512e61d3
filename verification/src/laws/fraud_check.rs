//! Laws of fraud checks.
use vstd::prelude::*;
use crate::errors::ApiErrorResponse;
use crate::fraud_check::{new_frm_id, Domain, FraudCheck, FraudCheckCheckoutData, FraudCheckDraft, FraudCheckLastStep, FraudCheckOperation, FraudCheckPre, FraudCheckResponseData, FraudCheckStatus, FraudCheckTransactionData, FraudCheckType, FraudCheckUpdate, FrmData, FrmRequest, FrmResponse, FrmRouterData, GetTracker, PaymentToFrmData, TrackerStep, UpdateTracker};
use crate::router_data::{ErrorResponse, ResponseId, RouterData};

verus! {

/// A call before a payment marks the check as having come to the checkout, and nothing else of it
/// changes. What is taken over is the call's own: whom it was for, what was told, what was
/// answered.
pub proof fn law_call_before_payment_is_taken_over<X, R>(
    check: &FraudCheckPre,
    frm_data: &mut FrmData<X, R>,
    router_data: RouterData<FraudCheckCheckoutData, FraudCheckResponseData>,
    res: FrmRouterData,
)
    requires
        call_ensures(
            <FraudCheckPre as Domain<X, R>>::pre_payment_frm,
            (check, frm_data, router_data),
            res,
        ),
    ensures
        final(frm_data).fraud_check.last_step is CheckoutOrSale,
        *final(frm_data) == (FrmData {
            fraud_check: FraudCheck {
                last_step: FraudCheckLastStep::CheckoutOrSale,
                ..old(frm_data).fraud_check
            },
            ..*old(frm_data)
        }),
        res.merchant_id == router_data.merchant_id,
        res.connector == router_data.connector,
        res.payment_id == router_data.payment_id,
        res.attempt_id == router_data.attempt_id,
        res.request matches FrmRequest::Checkout(told) && *told == router_data.request,
        res.response matches FrmResponse::Checkout(answer) && answer == router_data.response,
{
}

/// A call after a payment marks the check as having come to the transaction, and nothing else of
/// it changes. What is taken over is the call's own, with the payment method that the payment was
/// made by.
pub proof fn law_call_after_payment_is_taken_over<X, R>(
    check: &FraudCheckPre,
    frm_data: &mut FrmData<X, R>,
    router_data: RouterData<FraudCheckTransactionData, FraudCheckResponseData>,
    res: Option<FrmRouterData>,
)
    requires
        call_ensures(
            <FraudCheckPre as Domain<X, R>>::post_payment_frm,
            (check, frm_data, router_data),
            res,
        ),
    ensures
        *final(frm_data) == (FrmData {
            fraud_check: FraudCheck {
                last_step: FraudCheckLastStep::TransactionOrRecordRefund,
                ..old(frm_data).fraud_check
            },
            ..*old(frm_data)
        }),
        res is Some,
        ({
            let taken = res->0;
            &&& taken.merchant_id == router_data.merchant_id
            &&& taken.connector == router_data.connector
            &&& taken.payment_id == router_data.payment_id
            &&& taken.attempt_id == router_data.attempt_id
            &&& taken.response matches FrmResponse::Transaction(answer)
            &&& answer == router_data.response
            &&& taken.request matches FrmRequest::Transaction(told)
            &&& told.payment_method == Some(router_data.payment_method)
            &&& told.amount == router_data.request.amount
            &&& told.order_details == router_data.request.order_details
            &&& told.currency == router_data.request.currency
            &&& told.error_code == router_data.request.error_code
            &&& told.error_message == router_data.request.error_message
            &&& told.connector_transaction_id == router_data.request.connector_transaction_id
            &&& told.connector == router_data.request.connector
        }),
{
}

/// After a call nothing more is done, and the check is as it was.
pub proof fn law_nothing_follows_a_call<X, R>(
    check: &FraudCheckPre,
    frm_data: FrmData<X, R>,
    res: Option<FrmData<X, R>>,
)
    requires
        call_ensures(
            <FraudCheckPre as Domain<X, R>>::execute_post_tasks,
            (check, frm_data),
            res,
        ),
    ensures
        res is Some,
        res->0 == frm_data,
{
}

/// A record that is there is used. Otherwise a new one is stored, for this payment and this
/// service: it is pending, of a check before the payment, and nothing is known yet.
pub proof fn law_record_is_used_or_made<X>(
    check: &FraudCheckPre,
    existing: Option<FraudCheck>,
    payment: &PaymentToFrmData<X>,
    draft: FraudCheckDraft,
    res: TrackerStep,
)
    requires
        call_ensures(
            <FraudCheckPre as GetTracker<X>>::get_trackers,
            (check, existing, payment, draft),
            res,
        ),
    ensures
        res is Use <==> existing is Some,
        res matches TrackerStep::Use(found) ==> existing == Some(found),
        res matches TrackerStep::Insert(made) ==> {
            &&& made.frm_id == draft.frm_id
            &&& made.frm_name == draft.frm_name
            &&& made.payment_id == payment.payment_id
            &&& made.merchant_id == payment.merchant_id
            &&& made.attempt_id == payment.attempt_id
            &&& made.payment_capture_method == payment.capture_method
            &&& made.payment_details == draft.payment_details
            &&& made.created_at == draft.created_at
            &&& made.modified_at == draft.modified_at
            &&& made.frm_transaction_type is PreFrm
            &&& made.frm_status is Pending
            &&& made.last_step is Processing
            &&& made.frm_transaction_id is None
            &&& made.frm_score is None
            &&& made.frm_reason is None
            &&& made.frm_error is None
            &&& made.metadata is None
        },
{
}

/// What the service answered before a payment is stored as it was answered; what it answered
/// after a payment is too, but for the status that the payment was told, where there is one.
pub proof fn law_answered_check_is_stored(
    check: &FraudCheckPre,
    record: &FraudCheck,
    told: Option<FraudCheckStatus>,
    answer: FraudCheckResponseData,
    now: time::PrimitiveDateTime,
    before: Option<FraudCheckUpdate>,
    after: Option<FraudCheckUpdate>,
)
    requires
        answer is TransactionResponse,
        call_ensures(
            <FraudCheckPre as UpdateTracker>::update_tracker,
            (check, record, told, FrmResponse::Checkout(Ok(answer)), now),
            before,
        ),
        call_ensures(
            <FraudCheckPre as UpdateTracker>::update_tracker,
            (check, record, told, FrmResponse::Transaction(Ok(answer)), now),
            after,
        ),
    ensures
        before is Some && before->0 is ResponseUpdate,
        after is Some && after->0 is ResponseUpdate,
        before->0->frm_status == answer->status,
        told matches Some(status) ==> after->0->frm_status == status,
        told is None ==> after->0->frm_status == answer->status,
        before->0->payment_capture_method == record.payment_capture_method,
        after->0->payment_capture_method is None,
        forall|stored: FraudCheckUpdate|
            #![trigger stored->frm_reason]
            stored == before->0 || stored == after->0 ==> {
                &&& stored->frm_reason == answer->reason
                &&& stored->frm_score == answer->score
                &&& stored->metadata == answer->TransactionResponse_connector_metadata
                &&& stored->modified_at == now
                &&& stored->last_step == record.last_step
                &&& answer->TransactionResponse_resource_id is NoResponseId
                    ==> stored->frm_transaction_id is None
                &&& answer->TransactionResponse_resource_id matches
                    ResponseId::ConnectorTransactionId(id) ==> stored->frm_transaction_id == Some(id)
                &&& answer->TransactionResponse_resource_id matches ResponseId::EncodedData(id)
                    ==> stored->frm_transaction_id == Some(id)
            },
{
}

/// An error of the service, and an answer that belongs to another check, are stored as failures
/// that tell what came; a fulfilment changes nothing.
pub proof fn law_failed_check_is_stored(
    check: &FraudCheckPre,
    record: &FraudCheck,
    told: Option<FraudCheckStatus>,
    response: FrmResponse,
    now: time::PrimitiveDateTime,
    res: Option<FraudCheckUpdate>,
)
    requires
        call_ensures(
            <FraudCheckPre as UpdateTracker>::update_tracker,
            (check, record, told, response, now),
            res,
        ),
    ensures
        res matches Some(stored) ==> (stored is ErrorUpdate ==> stored->status
            is TransactionFailure && stored->error_message is Some && stored->error_message->0
            is Some),
        response matches FrmResponse::Checkout(Err(error)) ==> res is Some && res->0 is ErrorUpdate
            && res->0->error_message->0->0@ == error.message@,
        response matches FrmResponse::Transaction(Err(error)) ==> res is Some && res->0
            is ErrorUpdate && res->0->error_message->0->0@ == error.message@,
        response is Sale || response is Fulfillment || response is RecordReturn ==> res is Some
            && res->0 is ErrorUpdate && res->0->error_message->0->0@
            == "Error: Got Pre(Sale) flow response in current post flow"@,
        response matches FrmResponse::Checkout(Ok(answer)) ==> (answer is FulfillmentResponse ==> res
            is None) && (answer is RecordReturnResponse ==> res is Some && res->0 is ErrorUpdate
            && res->0->error_message->0->0@
            == "Error: Got Record Return Response response in current Checkout flow"@),
        response matches FrmResponse::Transaction(Ok(answer)) ==> (answer is FulfillmentResponse
            ==> res is None) && (answer is RecordReturnResponse ==> res is Some && res->0
            is ErrorUpdate && res->0->error_message->0->0@
            == "Error: Got Record Return Response response in current Checkout flow"@),
{
}

/// The check before a payment has all its parts, and each is itself.
pub proof fn law_check_has_its_parts<'a>(
    check: &'a FraudCheckPre,
    tracker: Result<&'a FraudCheckPre, ApiErrorResponse>,
    calls: Result<&'a FraudCheckPre, ApiErrorResponse>,
    updater: Result<&'a FraudCheckPre, ApiErrorResponse>,
)
    requires
        call_ensures(<FraudCheckPre as FraudCheckOperation>::to_get_tracker, (check,), tracker),
        call_ensures(<FraudCheckPre as FraudCheckOperation>::to_domain, (check,), calls),
        call_ensures(<FraudCheckPre as FraudCheckOperation>::to_update_tracker, (check,), updater),
    ensures
        tracker is Ok && *tracker->Ok_0 == *check,
        calls is Ok && *calls->Ok_0 == *check,
        updater is Ok && *updater->Ok_0 == *check,
{
}

/// A new id has the length and the marks of a random one.
pub proof fn law_new_ids_look_random(res: String)
    requires
        call_ensures(new_frm_id, (), res),
    ensures
        res@.len() == 32,
        res@[12] == '4',
        res@[16] == '8' || res@[16] == '9' || res@[16] == 'a' || res@[16] == 'b',
        forall|i: int|
            0 <= i < res@.len() ==> '0' <= #[trigger] res@[i] && res@[i] <= '9' || 'a' <= res@[i]
                && res@[i] <= 'f',
{
    assert forall|i: int| 0 <= i < res@.len() implies '0' <= #[trigger] res@[i] && res@[i] <= '9'
        || 'a' <= res@[i] && res@[i] <= 'f' by {
        assert(crate::fraud_check::is_hex_char(res@[i]));
    }
}

} // verus!
