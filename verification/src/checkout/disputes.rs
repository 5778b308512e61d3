//! Disputes at Checkout.
use vstd::prelude::*;
use crate::checkout::webhooks::CheckoutWebhookEventType;
use crate::enums::{Currency, DisputeStage, MinorUnit};
use crate::errors::ConnectorError;
use crate::router_data::{RouterData, SubmitEvidenceRequestData, UploadFileRequestData};
use crate::text::{clone_optional, concat3, split_text};

verus! {

/// What Checkout reports about a dispute.
#[derive(Clone, Copy, Debug, PartialEq, Eq, Structural)]
pub enum CheckoutDisputeTransactionType {
    DisputeReceived,
    DisputeExpired,
    DisputeAccepted,
    DisputeCanceled,
    DisputeEvidenceSubmitted,
    DisputeEvidenceAcknowledgedByScheme,
    DisputeEvidenceRequired,
    DisputeArbitrationLost,
    DisputeArbitrationWon,
    DisputeWon,
    DisputeLost,
}

/// The stage that a dispute has reached.
pub open spec fn stage_of(code: CheckoutDisputeTransactionType) -> DisputeStage {
    if code is DisputeArbitrationLost || code is DisputeArbitrationWon {
        DisputeStage::PreArbitration
    } else {
        DisputeStage::Dispute
    }
}

impl From<CheckoutDisputeTransactionType> for DisputeStage {
    fn from(code: CheckoutDisputeTransactionType) -> (res: Self) {
        match code {
            CheckoutDisputeTransactionType::DisputeArbitrationLost
            | CheckoutDisputeTransactionType::DisputeArbitrationWon => Self::PreArbitration,
            CheckoutDisputeTransactionType::DisputeReceived
            | CheckoutDisputeTransactionType::DisputeExpired
            | CheckoutDisputeTransactionType::DisputeAccepted
            | CheckoutDisputeTransactionType::DisputeCanceled
            | CheckoutDisputeTransactionType::DisputeEvidenceSubmitted
            | CheckoutDisputeTransactionType::DisputeEvidenceAcknowledgedByScheme
            | CheckoutDisputeTransactionType::DisputeEvidenceRequired
            | CheckoutDisputeTransactionType::DisputeWon
            | CheckoutDisputeTransactionType::DisputeLost => Self::Dispute,
        }
    }
}

impl vstd::std_specs::convert::FromSpecImpl<CheckoutDisputeTransactionType> for DisputeStage {
    open spec fn obeys_from_spec() -> bool {
        true
    }

    open spec fn from_spec(code: CheckoutDisputeTransactionType) -> Self {
        stage_of(code)
    }
}

/// What a report about a dispute tells.
pub struct CheckoutDisputeWebhookData {
    pub id: String,
    pub payment_id: Option<String>,
    pub action_id: Option<String>,
    pub amount: MinorUnit,
    pub currency: Currency,
    pub evidence_required_by: Option<time::PrimitiveDateTime>,
    pub reason_code: Option<String>,
    pub date: Option<time::PrimitiveDateTime>,
}

/// A report about a dispute.
pub struct CheckoutDisputeWebhookBody {
    pub transaction_type: CheckoutDisputeTransactionType,
    pub data: CheckoutDisputeWebhookData,
    pub created_on: Option<time::PrimitiveDateTime>,
}

/// A report about a dispute among all reports.
pub open spec fn as_event(code: CheckoutDisputeTransactionType) -> CheckoutWebhookEventType {
    match code {
        CheckoutDisputeTransactionType::DisputeReceived => CheckoutWebhookEventType::DisputeReceived,
        CheckoutDisputeTransactionType::DisputeExpired => CheckoutWebhookEventType::DisputeExpired,
        CheckoutDisputeTransactionType::DisputeAccepted => CheckoutWebhookEventType::DisputeAccepted,
        CheckoutDisputeTransactionType::DisputeCanceled => CheckoutWebhookEventType::DisputeCanceled,
        CheckoutDisputeTransactionType::DisputeEvidenceSubmitted =>
        CheckoutWebhookEventType::DisputeEvidenceSubmitted,
        CheckoutDisputeTransactionType::DisputeEvidenceAcknowledgedByScheme =>
        CheckoutWebhookEventType::DisputeEvidenceAcknowledgedByScheme,
        CheckoutDisputeTransactionType::DisputeEvidenceRequired =>
        CheckoutWebhookEventType::DisputeEvidenceRequired,
        CheckoutDisputeTransactionType::DisputeArbitrationLost =>
        CheckoutWebhookEventType::DisputeArbitrationLost,
        CheckoutDisputeTransactionType::DisputeArbitrationWon =>
        CheckoutWebhookEventType::DisputeArbitrationWon,
        CheckoutDisputeTransactionType::DisputeWon => CheckoutWebhookEventType::DisputeWon,
        CheckoutDisputeTransactionType::DisputeLost => CheckoutWebhookEventType::DisputeLost,
    }
}

/// The reports about disputes are exactly those that are taken for chargebacks.
pub proof fn law_dispute_reports_are_chargebacks(event: CheckoutWebhookEventType)
    ensures
        crate::checkout::webhooks::about_dispute(event) <==> exists|code:
            CheckoutDisputeTransactionType| #[trigger] as_event(code) == event,
{
    if crate::checkout::webhooks::about_dispute(event) {
        let code = match event {
            CheckoutWebhookEventType::DisputeReceived =>
            CheckoutDisputeTransactionType::DisputeReceived,
            CheckoutWebhookEventType::DisputeExpired =>
            CheckoutDisputeTransactionType::DisputeExpired,
            CheckoutWebhookEventType::DisputeAccepted =>
            CheckoutDisputeTransactionType::DisputeAccepted,
            CheckoutWebhookEventType::DisputeCanceled =>
            CheckoutDisputeTransactionType::DisputeCanceled,
            CheckoutWebhookEventType::DisputeEvidenceSubmitted =>
            CheckoutDisputeTransactionType::DisputeEvidenceSubmitted,
            CheckoutWebhookEventType::DisputeEvidenceAcknowledgedByScheme =>
            CheckoutDisputeTransactionType::DisputeEvidenceAcknowledgedByScheme,
            CheckoutWebhookEventType::DisputeEvidenceRequired =>
            CheckoutDisputeTransactionType::DisputeEvidenceRequired,
            CheckoutWebhookEventType::DisputeArbitrationLost =>
            CheckoutDisputeTransactionType::DisputeArbitrationLost,
            CheckoutWebhookEventType::DisputeArbitrationWon =>
            CheckoutDisputeTransactionType::DisputeArbitrationWon,
            CheckoutWebhookEventType::DisputeWon => CheckoutDisputeTransactionType::DisputeWon,
            _ => CheckoutDisputeTransactionType::DisputeLost,
        };
        assert(as_event(code) == event);
    }
}

// ---------------------------------------------------------------------------
// Evidence
// ---------------------------------------------------------------------------

/// A file on its way to Checkout.
pub struct FileUpload {
    /// What the file is for.
    pub purpose: String,
    pub file: Vec<u8>,
    pub file_name: String,
    /// The media type of the file.
    pub media_type: String,
}

/// Whether `mime` takes a text for a media type.
pub uninterp spec fn is_media_type(text: Seq<char>) -> bool;

/// `mime::Mime::from_str`: whether the text is taken for a media type depends on the text
/// alone. Which texts are, is left to that crate.
#[verifier::external_body]
fn parses_as_media_type(text: &str) -> (res: bool)
    ensures
        res == is_media_type(text@),
{
    text.parse::<mime::Mime>().is_ok()
}

/// The name of an uploaded file: its key, and behind a dot what follows the last slash of
/// its media type.
pub open spec fn upload_name(file_key: Seq<char>, file_type: Seq<char>) -> Seq<char> {
    file_key + "."@ + crate::text::split(file_type, '/').last()
}

/// Makes a file ready for Checkout.
pub fn construct_file_upload_request(request: UploadFileRequestData) -> (res: Result<
    FileUpload,
    ConnectorError,
>)
    ensures
        if is_media_type(request.file_type@) {
            &&& res matches Ok(upload)
            &&& upload.purpose@ == "dispute_evidence"@
            &&& upload.file == request.file
            &&& upload.file_name@ == upload_name(request.file_key@, request.file_type@)
            &&& upload.media_type == request.file_type
        } else {
            res == Err::<FileUpload, ConnectorError>(ConnectorError::RequestEncodingFailed)
        },
{
    let parts = split_text(request.file_type.as_str(), '/');
    let extension = parts[parts.len() - 1].as_str();
    assert(extension@ == crate::text::split(request.file_type@, '/').last());
    let file_name = concat3(request.file_key.as_str(), ".", extension);
    if !parses_as_media_type(request.file_type.as_str()) {
        return Err(ConnectorError::RequestEncodingFailed);
    }
    Ok(
        FileUpload {
            purpose: "dispute_evidence".to_string(),
            file: request.file,
            file_name,
            media_type: request.file_type,
        },
    )
}

/// The answer to an uploaded file.
#[derive(Debug, PartialEq, Eq)]
pub struct FileUploadResponse {
    pub file_id: String,
}

/// The evidence in a dispute, by the ids of uploaded files.
#[derive(Debug, PartialEq, Eq, Default)]
pub struct Evidence {
    pub proof_of_delivery_or_service_file: Option<String>,
    pub invoice_or_receipt_file: Option<String>,
    pub invoice_showing_distinct_transactions_file: Option<String>,
    pub customer_communication_file: Option<String>,
    pub refund_or_cancellation_policy_file: Option<String>,
    pub recurring_transaction_agreement_file: Option<String>,
    pub additional_evidence_file: Option<String>,
}

/// A call that submits evidence.
pub type SubmitEvidenceRouterData = RouterData<SubmitEvidenceRequestData, ()>;

impl<'a> TryFrom<&'a SubmitEvidenceRouterData> for Evidence {
    type Error = ConnectorError;

    fn try_from(item: &'a SubmitEvidenceRouterData) -> (res: Result<Self, ConnectorError>) {
        Ok(
            Evidence {
                proof_of_delivery_or_service_file: clone_optional(
                    &item.request.shipping_documentation_provider_file_id,
                ),
                invoice_or_receipt_file: clone_optional(&item.request.receipt_provider_file_id),
                invoice_showing_distinct_transactions_file: clone_optional(
                    &item.request.invoice_showing_distinct_transactions_provider_file_id,
                ),
                customer_communication_file: clone_optional(
                    &item.request.customer_communication_provider_file_id,
                ),
                refund_or_cancellation_policy_file: clone_optional(
                    &item.request.refund_policy_provider_file_id,
                ),
                recurring_transaction_agreement_file: clone_optional(
                    &item.request.recurring_transaction_agreement_provider_file_id,
                ),
                additional_evidence_file: clone_optional(
                    &item.request.uncategorized_file_provider_file_id,
                ),
            },
        )
    }
}

impl<'a> vstd::std_specs::convert::TryFromSpecImpl<&'a SubmitEvidenceRouterData> for Evidence {
    open spec fn obeys_try_from_spec() -> bool {
        true
    }

    open spec fn try_from_spec(item: &'a SubmitEvidenceRouterData) -> Result<Self, ConnectorError> {
        Ok(
            Evidence {
                proof_of_delivery_or_service_file:
                    item.request.shipping_documentation_provider_file_id,
                invoice_or_receipt_file: item.request.receipt_provider_file_id,
                invoice_showing_distinct_transactions_file:
                    item.request.invoice_showing_distinct_transactions_provider_file_id,
                customer_communication_file: item.request.customer_communication_provider_file_id,
                refund_or_cancellation_policy_file: item.request.refund_policy_provider_file_id,
                recurring_transaction_agreement_file:
                    item.request.recurring_transaction_agreement_provider_file_id,
                additional_evidence_file: item.request.uncategorized_file_provider_file_id,
            },
        )
    }
}

} // verus!
