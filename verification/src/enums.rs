//! Statuses and kinds shared by the modules.
use vstd::prelude::*;

verus! {

/// Where a payment attempt stands.
#[derive(Clone, Copy, Debug, PartialEq, Eq, Structural)]
pub enum AttemptStatus {
    Started,
    AuthenticationFailed,
    RouterDeclined,
    AuthenticationPending,
    AuthenticationSuccessful,
    Authorized,
    AuthorizationFailed,
    Charged,
    Authorizing,
    CodInitiated,
    Voided,
    VoidInitiated,
    CaptureInitiated,
    CaptureFailed,
    VoidFailed,
    AutoRefunded,
    PartialCharged,
    PartialChargedAndChargeable,
    Unresolved,
    Pending,
    Failure,
    PaymentMethodAwaited,
    ConfirmationAwaited,
    DeviceDataCollectionPending,
    IntegrityFailure,
}

/// Whether an attempt ended without the payment being made.
pub open spec fn payment_failed(status: AttemptStatus) -> bool {
    match status {
        AttemptStatus::AuthenticationFailed
        | AttemptStatus::AuthorizationFailed
        | AttemptStatus::CaptureFailed
        | AttemptStatus::VoidFailed
        | AttemptStatus::Failure => true,
        _ => false,
    }
}

/// Whether an attempt ended without the payment being made.
pub fn is_payment_failure(status: AttemptStatus) -> (res: bool)
    ensures
        res == payment_failed(status),
{
    match status {
        AttemptStatus::AuthenticationFailed
        | AttemptStatus::AuthorizationFailed
        | AttemptStatus::CaptureFailed
        | AttemptStatus::VoidFailed
        | AttemptStatus::Failure => true,
        _ => false,
    }
}

/// When an authorized payment is captured.
#[derive(Clone, Copy, Debug, PartialEq, Eq, Structural)]
pub enum CaptureMethod {
    Automatic,
    Manual,
    ManualMultiple,
    Scheduled,
    SequentialAutomatic,
}

impl Default for CaptureMethod {
    fn default() -> (res: Self)
        ensures
            res == CaptureMethod::Automatic,
    {
        CaptureMethod::Automatic
    }
}

/// Whether a payment goes through 3-D Secure.
#[derive(Clone, Copy, Debug, PartialEq, Eq, Structural)]
pub enum AuthenticationType {
    ThreeDs,
    NoThreeDs,
}

/// Where a refund stands.
#[derive(Clone, Copy, Debug, PartialEq, Eq, Structural)]
pub enum RefundStatus {
    Failure,
    ManualReview,
    Pending,
    Success,
    TransactionFailure,
}

/// Whether a refund ended without the money going back.
pub open spec fn refund_failed(status: RefundStatus) -> bool {
    status is Failure || status is TransactionFailure
}

/// Whether a refund ended without the money going back.
pub fn is_refund_failure(status: RefundStatus) -> (res: bool)
    ensures
        res == refund_failed(status),
{
    match status {
        RefundStatus::Failure | RefundStatus::TransactionFailure => true,
        RefundStatus::ManualReview | RefundStatus::Pending | RefundStatus::Success => false,
    }
}

/// Where a payment intent stands.
#[derive(Clone, Copy, Debug, PartialEq, Eq, Structural)]
pub enum IntentStatus {
    Succeeded,
    Failed,
    Cancelled,
    Processing,
    RequiresCustomerAction,
    RequiresMerchantAction,
    RequiresPaymentMethod,
    RequiresConfirmation,
    RequiresCapture,
    PartiallyCaptured,
    PartiallyCapturedAndCapturable,
    Conflicted,
}

/// How a payment is paid.
#[derive(Clone, Copy, Debug, PartialEq, Eq, Structural)]
pub enum PaymentMethod {
    Card,
    CardRedirect,
    PayLater,
    Wallet,
    BankRedirect,
    BankTransfer,
    Crypto,
    BankDebit,
    Reward,
    RealTimePayment,
    Upi,
    Voucher,
    GiftCard,
    OpenBanking,
    MobilePayment,
}

/// The stage that a dispute has reached.
#[derive(Clone, Copy, Debug, PartialEq, Eq, Structural)]
pub enum DisputeStage {
    PreDispute,
    Dispute,
    PreArbitration,
    Arbitration,
    DisputeReversal,
}

/// An amount in the smallest unit of its currency.
#[derive(Clone, Copy, Debug, PartialEq, Eq, Structural)]
pub struct MinorUnit(pub i64);

/// A currency, by its three letter code.
#[derive(Debug, PartialEq, Eq)]
pub struct Currency {
    pub code: String,
}

impl Clone for Currency {
    fn clone(&self) -> (res: Self)
        ensures
            res == *self,
    {
        Currency { code: self.code.clone() }
    }
}

/// The method of an HTTP request.
#[derive(Clone, Copy, Debug, PartialEq, Eq, Structural)]
pub enum Method {
    Get,
    Post,
    Put,
    Delete,
    Patch,
}

/// The name of an HTTP method.
pub open spec fn method_name(method: Method) -> Seq<char> {
    match method {
        Method::Get => "GET"@,
        Method::Post => "POST"@,
        Method::Put => "PUT"@,
        Method::Delete => "DELETE"@,
        Method::Patch => "PATCH"@,
    }
}

impl Method {
    /// The name of the method.
    pub fn name(&self) -> (res: &'static str)
        ensures
            res@ == method_name(*self),
    {
        match self {
            Method::Get => "GET",
            Method::Post => "POST",
            Method::Put => "PUT",
            Method::Delete => "DELETE",
            Method::Patch => "PATCH",
        }
    }
}

} // verus!
