//! Laws of webhooks: what Checkout reports, where reports go, and what they are about.
use vstd::prelude::*;
use crate::checkout::disputes::{construct_file_upload_request, CheckoutDisputeTransactionType, Evidence, FileUpload, SubmitEvidenceRouterData};
use crate::checkout::payments::{CheckoutPaymentStatus, PaymentsResponse};
use crate::checkout::refunds::RefundResponse;
use crate::checkout::webhooks::{is_chargeback_event, is_refund_event, CheckoutWebhookBody, CheckoutWebhookEventType};
use crate::enums::DisputeStage;
use crate::errors::ConnectorError;
use crate::router_data::UploadFileRequestData;
use crate::webhooks::{IncomingWebhookEvent, ObjectReferenceId, PaymentIdType, ValidationError, WebhookFlow, WebhookResponseTracker};

verus! {

/// A report goes to the part of the switch that deals with what it is about. What needs only an
/// answer goes to none.
pub proof fn law_reports_go_to_their_part(event: IncomingWebhookEvent, flow: WebhookFlow)
    requires
        call_ensures(<WebhookFlow as From<IncomingWebhookEvent>>::from, (event,), flow),
    ensures
        flow is Refund <==> event is RefundSuccess || event is RefundFailure,
        flow is Dispute <==> event is DisputeOpened || event is DisputeExpired || event
            is DisputeAccepted || event is DisputeCancelled || event is DisputeChallenged || event
            is DisputeWon || event is DisputeLost,
        flow is Mandate <==> event is MandateActive || event is MandateRevoked,
        flow is BankTransfer <==> event is SourceChargeable || event is SourceTransactionCreated,
        flow is ExternalAuthentication <==> event is ExternalAuthenticationARes,
        flow is FraudCheck <==> event is FrmApproved || event is FrmRejected,
        flow is Payout <==> event is PayoutSuccess || event is PayoutFailure || event
            is PayoutProcessing || event is PayoutCancelled || event is PayoutCreated || event
            is PayoutExpired || event is PayoutReversed,
        flow is Recovery <==> event is RecoveryPaymentFailure || event is RecoveryPaymentSuccess
            || event is RecoveryPaymentPending || event is RecoveryInvoiceCancel,
        flow is ReturnResponse <==> event is EventNotSupported || event is EndpointVerification,
        flow is Payment <==> event is PaymentIntentFailure || event is PaymentIntentSuccess || event
            is PaymentIntentProcessing || event is PaymentIntentPartiallyFunded || event
            is PaymentIntentCancelled || event is PaymentIntentCancelFailure || event
            is PaymentIntentAuthorizationSuccess || event is PaymentIntentAuthorizationFailure
            || event is PaymentIntentCaptureSuccess || event is PaymentIntentCaptureFailure || event
            is PaymentIntentExpired || event is PaymentActionRequired,
{
}

/// A report of a recovered payment tells of a transaction unless the invoice was cancelled.
pub proof fn law_recovered_payments_have_transactions(event: IncomingWebhookEvent, res: bool)
    requires
        call_ensures(IncomingWebhookEvent::is_recovery_transaction_event, (&event,), res),
    ensures
        res <==> event is RecoveryPaymentFailure || event is RecoveryPaymentSuccess || event
            is RecoveryPaymentPending,
{
}

/// The payment that a webhook changed, or to whose refund or dispute it belongs, is told by its own
/// id, and a payment method by its own.
pub proof fn law_changed_ids_are_told(
    tracker: &WebhookResponseTracker,
    payment: Option<String>,
    method: Option<String>,
)
    requires
        call_ensures(WebhookResponseTracker::get_payment_id, (tracker,), payment),
        call_ensures(WebhookResponseTracker::get_payment_method_id, (tracker,), method),
    ensures
        payment is Some <==> *tracker is Payment || *tracker is Refund || *tracker is Dispute,
        *tracker is Payment ==> payment == Some(tracker->Payment_payment_id),
        *tracker is Refund ==> payment == Some(tracker->Refund_payment_id),
        *tracker is Dispute ==> payment == Some(tracker->Dispute_payment_id),
        method is Some <==> *tracker is PaymentMethod,
        *tracker is PaymentMethod ==> method == Some(tracker->payment_method_id),
{
}

/// The connector's id of a payment is given where that is what a webhook is about. Any other id is
/// refused, and the refusal tells what it was.
pub proof fn law_only_connector_ids_are_given(
    reference: ObjectReferenceId,
    res: Result<String, ValidationError>,
)
    requires
        call_ensures(
            ObjectReferenceId::get_connector_transaction_id_as_string,
            (reference,),
            res,
        ),
    ensures
        res is Ok <==> reference is PaymentId && reference->PaymentId_0 is ConnectorTransactionId,
        res is Ok ==> res->Ok_0 == reference->PaymentId_0->ConnectorTransactionId_0,
        res is Err ==> ({
            let told = res->Err_0->field_name;
            &&& reference is PaymentId ==> told
                == "ConnectorTransactionId variant of PaymentId is required but received otherr variant"
            &&& reference is RefundId ==> told == "PaymentId is required but received RefundId"
            &&& reference is MandateId ==> told == "PaymentId is required but received MandateId"
            &&& reference is ExternalAuthenticationID ==> told
                == "PaymentId is required but received ExternalAuthenticationID"
            &&& reference is PayoutId ==> told == "PaymentId is required but received PayoutId"
            &&& reference is InvoiceId ==> told == "PaymentId is required but received InvoiceId"
        }),
{
}

/// What a report of Checkout means for the switch, each meaning for exactly the reports that have
/// it.
pub proof fn law_checkout_reports_are_understood(
    report: CheckoutWebhookEventType,
    event: IncomingWebhookEvent,
)
    requires
        call_ensures(
            <IncomingWebhookEvent as From<CheckoutWebhookEventType>>::from,
            (report,),
            event,
        ),
    ensures
        event is PaymentIntentSuccess <==> report is PaymentCaptured,
        event is PaymentIntentFailure <==> report is PaymentDeclined,
        event is PaymentIntentCancelled <==> report is PaymentVoided,
        event is PaymentIntentCancelFailure <==> report is PaymentCanceled,
        event is PaymentIntentCaptureFailure <==> report is PaymentCaptureDeclined,
        event is PaymentIntentAuthorizationFailure <==> report is AuthenticationExpired || report
            is AuthenticationFailed || report is PaymentAuthenticationFailed,
        event is RefundSuccess <==> report is PaymentRefunded,
        event is RefundFailure <==> report is PaymentRefundDeclined,
        event is DisputeOpened <==> report is DisputeReceived || report is DisputeEvidenceRequired,
        event is DisputeExpired <==> report is DisputeExpired,
        event is DisputeAccepted <==> report is DisputeAccepted,
        event is DisputeCancelled <==> report is DisputeCanceled,
        event is DisputeChallenged <==> report is DisputeEvidenceSubmitted || report
            is DisputeEvidenceAcknowledgedByScheme,
        event is DisputeWon <==> report is DisputeWon || report is DisputeArbitrationWon,
        event is DisputeLost <==> report is DisputeLost || report is DisputeArbitrationLost,
        event is EventNotSupported <==> report is AuthenticationStarted || report
            is AuthenticationApproved || report is AuthenticationAttempted || report
            is PaymentApproved || report is Unknown,
{
}

/// Which reports are about a refund, and which about a dispute.
pub proof fn law_checkout_reports_are_sorted(
    report: CheckoutWebhookEventType,
    refund: bool,
    chargeback: bool,
)
    requires
        call_ensures(is_refund_event, (&report,), refund),
        call_ensures(is_chargeback_event, (&report,), chargeback),
    ensures
        refund <==> report is PaymentRefunded || report is PaymentRefundDeclined,
        chargeback <==> report is DisputeReceived || report is DisputeExpired || report
            is DisputeAccepted || report is DisputeCanceled || report is DisputeEvidenceSubmitted
            || report is DisputeEvidenceAcknowledgedByScheme || report is DisputeEvidenceRequired
            || report is DisputeArbitrationLost || report is DisputeArbitrationWon || report
            is DisputeWon || report is DisputeLost,
{
}

/// Where a payment stands after a report, each state after exactly the reports that tell it.
pub proof fn law_checkout_reports_tell_the_state(
    report: CheckoutWebhookEventType,
    refund: bool,
    chargeback: bool,
    res: Result<CheckoutPaymentStatus, ConnectorError>,
)
    requires
        call_ensures(is_refund_event, (&report,), refund),
        call_ensures(is_chargeback_event, (&report,), chargeback),
        call_ensures(
            <CheckoutPaymentStatus as TryFrom<CheckoutWebhookEventType>>::try_from,
            (report,),
            res,
        ),
    ensures
        res is Err <==> refund || chargeback || report is Unknown,
        res is Err ==> res->Err_0 is WebhookEventTypeNotFound,
        res is Ok ==> {
            &&& res->Ok_0 is Authorized <==> report is PaymentApproved
            &&& res->Ok_0 is Captured <==> report is PaymentCaptured
            &&& res->Ok_0 is Voided <==> report is PaymentVoided
            &&& res->Ok_0 is Canceled <==> report is PaymentCanceled
            &&& res->Ok_0 is Pending <==> report is AuthenticationStarted || report
                is AuthenticationApproved || report is AuthenticationAttempted
            &&& res->Ok_0 is Declined <==> report is PaymentDeclined || report
                is AuthenticationExpired || report is AuthenticationFailed || report
                is PaymentAuthenticationFailed || report is PaymentCaptureDeclined
        },
{
}

/// A reported payment is what the report tells, each thing under its own name, and stands where the
/// report says.
pub proof fn law_reported_payment_is_the_reports(
    body: CheckoutWebhookBody,
    status: Result<CheckoutPaymentStatus, ConnectorError>,
    res: Result<PaymentsResponse, ConnectorError>,
    undecoded: Result<PaymentsResponse, ConnectorError>,
)
    requires
        call_ensures(
            <CheckoutPaymentStatus as TryFrom<CheckoutWebhookEventType>>::try_from,
            (body.transaction_type,),
            status,
        ),
        call_ensures(
            <PaymentsResponse as TryFrom<Option<CheckoutWebhookBody>>>::try_from,
            (Some(body),),
            res,
        ),
        call_ensures(
            <PaymentsResponse as TryFrom<Option<CheckoutWebhookBody>>>::try_from,
            (None::<CheckoutWebhookBody>,),
            undecoded,
        ),
    ensures
        undecoded is Err,
        undecoded->Err_0 is WebhookBodyDecodingFailed,
        res is Ok <==> status is Ok,
        res is Err ==> res->Err_0 == status->Err_0,
        res matches Ok(payment) ==> {
            &&& payment.status == status->Ok_0
            &&& body.data.payment_id is Some ==> payment.id == body.data.payment_id->0
            &&& body.data.payment_id is None ==> payment.id == body.data.id
            &&& payment.amount == Some(body.data.amount)
            &&& payment.currency == Some(body.data.currency)
            &&& payment.links == body.links
            &&& payment.balances == body.data.balances
            &&& payment.reference == body.data.reference
            &&& payment.response_code == body.data.response_code
            &&& payment.response_summary == body.data.response_summary
            &&& payment.action_id == body.data.action_id
            &&& payment.processed_on == body.data.processed_on
            &&& payment.approved == body.data.approved
        },
{
}

/// A reported refund is known by the id of its action and by its reference, and needs both.
pub proof fn law_reported_refund_is_the_reports(
    body: CheckoutWebhookBody,
    res: Result<RefundResponse, ConnectorError>,
    undecoded: Result<RefundResponse, ConnectorError>,
)
    requires
        call_ensures(
            <RefundResponse as TryFrom<Option<CheckoutWebhookBody>>>::try_from,
            (Some(body),),
            res,
        ),
        call_ensures(
            <RefundResponse as TryFrom<Option<CheckoutWebhookBody>>>::try_from,
            (None::<CheckoutWebhookBody>,),
            undecoded,
        ),
    ensures
        undecoded is Err,
        undecoded->Err_0 is WebhookBodyDecodingFailed,
        res is Ok <==> body.data.action_id is Some && body.data.reference is Some,
        res is Err ==> res->Err_0 is WebhookBodyDecodingFailed,
        res is Ok ==> body.data.action_id == Some(res->Ok_0.action_id) && body.data.reference
            == Some(res->Ok_0.reference),
{
}

/// A dispute that came to arbitration is at that stage, and any other is a dispute.
pub proof fn law_arbitration_is_its_own_stage(
    code: CheckoutDisputeTransactionType,
    stage: DisputeStage,
)
    requires
        call_ensures(<DisputeStage as From<CheckoutDisputeTransactionType>>::from, (code,), stage),
    ensures
        stage is PreArbitration <==> code is DisputeArbitrationLost || code is DisputeArbitrationWon,
        stage is Dispute <==> !(code is DisputeArbitrationLost || code is DisputeArbitrationWon),
{
}

/// Each file of evidence goes to Checkout under what it proves.
pub proof fn law_evidence_goes_under_its_name<'a>(
    item: &'a SubmitEvidenceRouterData,
    res: Result<Evidence, ConnectorError>,
)
    requires
        call_ensures(
            <Evidence as TryFrom<&'a SubmitEvidenceRouterData>>::try_from,
            (item,),
            res,
        ),
    ensures
        res is Ok,
        res->Ok_0.proof_of_delivery_or_service_file
            == item.request.shipping_documentation_provider_file_id,
        res->Ok_0.invoice_or_receipt_file == item.request.receipt_provider_file_id,
        res->Ok_0.invoice_showing_distinct_transactions_file
            == item.request.invoice_showing_distinct_transactions_provider_file_id,
        res->Ok_0.customer_communication_file
            == item.request.customer_communication_provider_file_id,
        res->Ok_0.refund_or_cancellation_policy_file == item.request.refund_policy_provider_file_id,
        res->Ok_0.recurring_transaction_agreement_file
            == item.request.recurring_transaction_agreement_provider_file_id,
        res->Ok_0.additional_evidence_file == item.request.uncategorized_file_provider_file_id,
{
}

/// A file goes to Checkout as it is, for a dispute, under its key and the subtype of its media
/// type; what has no media type is refused.
pub proof fn law_uploaded_file_is_the_given_one(
    request: UploadFileRequestData,
    major: Seq<char>,
    minor: Seq<char>,
    res: Result<FileUpload, ConnectorError>,
)
    requires
        call_ensures(construct_file_upload_request, (request,), res),
        request.file_type@ == major + seq!['/'] + minor,
        forall|i: int| 0 <= i < minor.len() ==> #[trigger] minor[i] != '/',
    ensures
        res is Ok <==> crate::checkout::disputes::is_media_type(request.file_type@),
        res is Err ==> res->Err_0 is RequestEncodingFailed,
        res matches Ok(upload) ==> {
            &&& upload.purpose@ == "dispute_evidence"@
            &&& upload.file == request.file
            &&& upload.media_type == request.file_type
            &&& upload.file_name@ == request.file_key@ + "."@ + minor
        },
{
    crate::text::law_split_of_joined(major, minor, '/');
    crate::laws::requests::lemma_unsplit(minor, '/');
    let parts = crate::text::split(request.file_type@, '/');
    assert(parts == crate::text::split(major, '/') + seq![minor]);
    assert(parts.last() == minor);
}

} // verus!
