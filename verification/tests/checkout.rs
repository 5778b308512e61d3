use hyperswitch::checkout::captures::{
    capture_sync, ActionResponse, ActionType, CaptureType, PaymentCaptureRequest,
    PaymentCaptureResponse, PaymentVoidRequest, PaymentVoidResponse, PaymentsResponseEnum,
};
use hyperswitch::checkout::disputes::{
    construct_file_upload_request, CheckoutDisputeTransactionType, Evidence,
    SubmitEvidenceRouterData,
};
use hyperswitch::checkout::payments::{
    get_attempt_status_bal, get_attempt_status_cap, get_attempt_status_intent, get_connector_meta,
    Balances, CheckoutAuthType, CheckoutMeta, CheckoutPaymentIntent, CheckoutPaymentStatus,
    CheckoutRedirectResponseStatus, CheckoutRouterData, ErrorCodeAndMessage, Href, Links,
    PaymentSource, PaymentsRequest, PaymentsResponse,
};
use hyperswitch::checkout::refunds::{CheckoutRefundResponse, RefundRequest, RefundResponse};
use hyperswitch::checkout::tokens::{
    CheckoutGooglePayData, CheckoutTokenResponse, TokenRequest, WalletToken, WalletTokenFormat,
};
use hyperswitch::checkout::webhooks::{
    is_chargeback_event, is_refund_event, CheckoutWebhookBody, CheckoutWebhookData,
    CheckoutWebhookEventType,
};
use hyperswitch::enums::{
    is_payment_failure, AttemptStatus, AuthenticationType, CaptureMethod, Currency, DisputeStage,
    MinorUnit, PaymentMethod, RefundStatus,
};
use hyperswitch::errors::{ConnectorError, Unimplemented};
use hyperswitch::payment_data::{
    ApplePayDecryptedData, Card, PaymentMethodData, PaymentMethodToken, WalletData,
};
use hyperswitch::router_data::{
    AuthenticationData, BillingDetails, ConnectorAuthType, MultipleCaptureRequestData,
    PaymentMethodTokenizationData, PaymentsAuthorizeData, PaymentsAuthorizeRouterData,
    PaymentsCancelData, PaymentsCaptureData, PaymentsResponseData, PaymentsSyncData,
    PaymentsSyncRouterData, RedirectionData, RefundsData, RefundsResponseData, RefundsRouterData,
    ResponseId, ResponseRouterData, RouterData, SubmitEvidenceRequestData, UploadFileRequestData,
};
use hyperswitch::secret::Secret;
use hyperswitch::web_url::WebUrl;
use hyperswitch::webhooks::{IncomingWebhookEvent, WebhookFlow};

fn text(value: &str) -> String {
    value.to_string()
}

fn secret(value: &str) -> Secret<String> {
    Secret::new(value.to_string())
}

fn missing(field_name: &'static str) -> ConnectorError {
    ConnectorError::MissingRequiredField { field_name }
}

fn keys() -> ConnectorAuthType {
    ConnectorAuthType::SignatureKey {
        api_key: secret("api"),
        key1: secret("channel"),
        api_secret: secret("api_secret"),
    }
}

fn data_for<Req, Resp>(request: Req, response: Resp) -> RouterData<Req, Resp> {
    RouterData {
        connector: text("checkout"),
        merchant_id: text("merchant"),
        payment_id: text("pay"),
        attempt_id: text("att"),
        status: AttemptStatus::Started,
        payment_method: PaymentMethod::Card,
        auth_type: AuthenticationType::NoThreeDs,
        connector_auth_type: keys(),
        billing: BillingDetails { full_name: Err(missing("n")), country: Err(missing("c")) },
        payment_method_token: None,
        preprocessing_id: None,
        connector_request_reference_id: text("ref"),
        amount_captured: None,
        refund_id: None,
        dispute_id: None,
        connector_http_status_code: None,
        external_latency: None,
        raw_connector_response: None,
        request,
        response: Ok(response),
    }
}

fn no_answer() -> PaymentsResponseData {
    PaymentsResponseData::TokenizationResponse { token: text("none") }
}

fn card() -> PaymentMethodData {
    PaymentMethodData::Card(Card {
        card_number: secret("4242424242424242"),
        card_exp_month: secret("08"),
        card_exp_year: secret("2031"),
        card_cvc: secret("100"),
        expiry_month_year: Err(missing("expiry")),
    })
}

fn authorize_data(method: PaymentMethodData) -> PaymentsAuthorizeRouterData {
    data_for(
        PaymentsAuthorizeData {
            payment_method_data: method,
            currency: Currency { code: text("EUR") },
            capture_method: Some(CaptureMethod::Automatic),
            router_return_url: Some(text("https://shop.example/back")),
            webhook_url: Err(missing("webhook_url")),
            email: Err(missing("email")),
            order_details: Err(missing("order_details")),
            has_mandate: false,
            connector_mandate_id: Err(missing("mandate")),
            authentication_data: None,
            metadata: Some(serde_json::Value::from("meta")),
        },
        no_answer(),
    )
}

fn request_for(data: &PaymentsAuthorizeRouterData) -> Result<PaymentsRequest, ConnectorError> {
    PaymentsRequest::try_from(&CheckoutRouterData::from((MinorUnit(4200), data)))
}

#[test]
fn card_payments() {
    let data = authorize_data(card());
    let request = match request_for(&data) {
        Ok(request) => request,
        Err(_) => panic!("a request was expected"),
    };
    match request.source {
        PaymentSource::Card(source) => {
            assert!(source.number == secret("4242424242424242"));
            assert!(source.expiry_month == secret("08"));
            assert!(source.expiry_year == secret("2031"));
            assert!(source.cvv == secret("100"));
        }
        _ => panic!("a card was expected"),
    }
    assert!(request.amount == MinorUnit(4200));
    assert_eq!(request.currency, "EUR");
    assert!(request.capture);
    assert_eq!(request.reference, "ref");
    assert!(request.processing_channel_id == secret("channel"));
    assert_eq!(request.return_url.success_url, Some(text("https://shop.example/back?status=success")));
    assert_eq!(request.return_url.failure_url, Some(text("https://shop.example/back?status=failure")));
    assert!(!request.three_ds.enabled);
    assert!(!request.three_ds.force_3ds);
    assert!(request.metadata == Some(Secret::new(serde_json::Value::from("meta"))));
}

#[test]
fn payments_with_three_ds() {
    let mut data = authorize_data(card());
    data.auth_type = AuthenticationType::ThreeDs;
    data.request.capture_method = Some(CaptureMethod::Manual);
    let request = match request_for(&data) {
        Ok(request) => request,
        Err(_) => panic!("a request was expected"),
    };
    assert!(request.three_ds.enabled);
    assert!(request.three_ds.force_3ds);
    assert!(!request.capture);
    data.request.authentication_data = Some(AuthenticationData {
        eci: Some(text("05")),
        cavv: secret("cavv"),
        threeds_server_transaction_id: Some(text("xid")),
        message_version: Some(text("2.2.0")),
    });
    let request = match request_for(&data) {
        Ok(request) => request,
        Err(_) => panic!("a request was expected"),
    };
    assert_eq!(request.three_ds.eci, Some(text("05")));
    assert!(request.three_ds.cryptogram == Some(secret("cavv")));
    assert_eq!(request.three_ds.xid, Some(text("xid")));
    assert_eq!(request.three_ds.version, Some(text("2.2.0")));
}

#[test]
fn wallet_payments() {
    let mut data = authorize_data(PaymentMethodData::Wallet(WalletData::GooglePay));
    assert!(request_for(&data).is_err());
    data.payment_method_token = Some(PaymentMethodToken::Token(secret("tok")));
    match request_for(&data) {
        Ok(PaymentsRequest { source: PaymentSource::Wallets(wallet), .. }) => {
            assert!(wallet.token == secret("tok"));
        }
        _ => panic!("a wallet was expected"),
    }
    data.payment_method_token = Some(PaymentMethodToken::PazeDecrypt);
    assert!(
        request_for(&data).err()
            == Some(ConnectorError::NotImplemented(Unimplemented::PaymentMethod {
                payment_method: "Paze",
                flow: None,
                connector: "Checkout",
            }))
    );
}

#[test]
fn decrypted_apple_pay() {
    let mut data = authorize_data(PaymentMethodData::Wallet(WalletData::ApplePay));
    data.payment_method_token = Some(PaymentMethodToken::ApplePayDecrypt(ApplePayDecryptedData {
        application_primary_account_number: secret("4111"),
        expiry_month: Ok(secret("05")),
        four_digit_expiry_year: Ok(secret("2030")),
        eci_indicator: Some(text("7")),
        online_payment_cryptogram: secret("crypt"),
    }));
    match request_for(&data) {
        Ok(PaymentsRequest { source: PaymentSource::ApplePayPredecrypt(source), .. }) => {
            assert!(source.token == secret("4111"));
            assert_eq!(source.decrypt_type, "network_token");
            assert_eq!(source.token_type, "applepay");
            assert!(source.expiry_year == secret("2030"));
            assert!(source.cryptogram == secret("crypt"));
        }
        _ => panic!("a decrypted wallet was expected"),
    }
}

#[test]
fn other_methods_are_not_offered() {
    let data = authorize_data(PaymentMethodData::Crypto);
    assert!(
        request_for(&data).err()
            == Some(ConnectorError::NotImplemented(Unimplemented::SelectedPaymentMethod {
                connector: "checkout",
            }))
    );
    let mut data = authorize_data(card());
    data.connector_auth_type = ConnectorAuthType::NoKey;
    assert!(request_for(&data).err() == Some(ConnectorError::FailedToObtainAuthType));
}

#[test]
fn auth_types() {
    match CheckoutAuthType::try_from(&keys()) {
        Ok(auth) => {
            assert!(auth.api_key == secret("api"));
            assert!(auth.processing_channel_id == secret("channel"));
            assert!(auth.api_secret == secret("api_secret"));
        }
        Err(_) => panic!("keys were expected"),
    }
    let key = ConnectorAuthType::HeaderKey { api_key: secret("api") };
    assert!(
        CheckoutAuthType::try_from(&key).err() == Some(ConnectorError::FailedToObtainAuthType)
    );
}

#[test]
fn attempt_statuses() {
    use_statuses(CheckoutPaymentStatus::Captured, AttemptStatus::Charged);
    use_statuses(CheckoutPaymentStatus::PartiallyCaptured, AttemptStatus::PartialCharged);
    use_statuses(CheckoutPaymentStatus::Declined, AttemptStatus::Failure);
    use_statuses(CheckoutPaymentStatus::Expired, AttemptStatus::Failure);
    use_statuses(CheckoutPaymentStatus::Canceled, AttemptStatus::Failure);
    use_statuses(CheckoutPaymentStatus::Pending, AttemptStatus::AuthenticationPending);
    use_statuses(CheckoutPaymentStatus::CardVerified, AttemptStatus::Pending);
    use_statuses(CheckoutPaymentStatus::RetryScheduled, AttemptStatus::Pending);
    use_statuses(CheckoutPaymentStatus::Voided, AttemptStatus::Voided);
    use_statuses(CheckoutPaymentStatus::Refunded, AttemptStatus::Charged);
    use_statuses(CheckoutPaymentStatus::PartiallyRefunded, AttemptStatus::Charged);
}

fn use_statuses(status: CheckoutPaymentStatus, expected: AttemptStatus) {
    assert!(get_attempt_status_cap((status, None)) == expected);
    assert!(get_attempt_status_cap((status, Some(CaptureMethod::Manual))) == expected);
    assert!(get_attempt_status_intent((status, CheckoutPaymentIntent::Capture)) == expected);
    assert!(get_attempt_status_intent((status, CheckoutPaymentIntent::Authorize)) == expected);
    assert!(get_attempt_status_bal((status, None)) == expected);
}

#[test]
fn authorized_payments_by_what_follows() {
    let authorized = CheckoutPaymentStatus::Authorized;
    let cap = |method| get_attempt_status_cap((authorized, method));
    assert!(cap(None) == AttemptStatus::Pending);
    assert!(cap(Some(CaptureMethod::Automatic)) == AttemptStatus::Pending);
    assert!(cap(Some(CaptureMethod::Manual)) == AttemptStatus::Authorized);
    assert!(cap(Some(CaptureMethod::SequentialAutomatic)) == AttemptStatus::Authorized);
    let intent = |flow| get_attempt_status_intent((authorized, flow));
    assert!(intent(CheckoutPaymentIntent::Capture) == AttemptStatus::Pending);
    assert!(intent(CheckoutPaymentIntent::Authorize) == AttemptStatus::Authorized);
    let bal = |balances| get_attempt_status_bal((authorized, balances));
    assert!(bal(Some(Balances { available_to_capture: 0 })) == AttemptStatus::Charged);
    assert!(bal(Some(Balances { available_to_capture: 5 })) == AttemptStatus::Authorized);
    assert!(bal(None) == AttemptStatus::Authorized);
}

#[test]
fn what_is_kept_of_a_payment() {
    let capture = Ok(CheckoutMeta { psync_flow: CheckoutPaymentIntent::Capture });
    let authorize = Ok(CheckoutMeta { psync_flow: CheckoutPaymentIntent::Authorize });
    assert_eq!(get_connector_meta(CaptureMethod::Automatic), capture);
    assert_eq!(get_connector_meta(CaptureMethod::SequentialAutomatic), capture);
    assert_eq!(get_connector_meta(CaptureMethod::Manual), authorize);
    assert_eq!(get_connector_meta(CaptureMethod::ManualMultiple), authorize);
    assert_eq!(
        get_connector_meta(CaptureMethod::Scheduled),
        Err(ConnectorError::CaptureMethodNotSupported),
    );
    assert!(CheckoutPaymentStatus::default() == CheckoutPaymentStatus::Pending);
}

fn answer(status: CheckoutPaymentStatus) -> PaymentsResponse {
    PaymentsResponse {
        id: text("pay_1"),
        amount: Some(MinorUnit(4200)),
        currency: Some(text("EUR")),
        action_id: Some(text("act_1")),
        status,
        links: Links { redirect: None },
        balances: None,
        reference: None,
        response_code: Some(text("20005")),
        response_summary: Some(text("Declined - Do not honour")),
        approved: Some(true),
        processed_on: None,
    }
}

#[test]
fn answers_to_payments() {
    let mut response = answer(CheckoutPaymentStatus::Pending);
    response.links.redirect =
        Some(Href { redirection_url: WebUrl::parse("https://acs.example/go").unwrap() });
    let taken: PaymentsAuthorizeRouterData = match RouterData::try_from(ResponseRouterData {
        response,
        data: authorize_data(card()),
        http_code: 202,
    }) {
        Ok(data) => data,
        Err(_) => panic!("an answer was expected"),
    };
    assert!(taken.status == AttemptStatus::AuthenticationPending);
    match taken.response {
        Ok(PaymentsResponseData::TransactionResponse {
            resource_id,
            redirection_data,
            connector_metadata,
            connector_response_reference_id,
            ..
        }) => {
            assert!(resource_id == ResponseId::ConnectorTransactionId(text("pay_1")));
            assert!(matches!(redirection_data, Some(RedirectionData::Url { .. })));
            assert_eq!(
                connector_metadata,
                Some(CheckoutMeta { psync_flow: CheckoutPaymentIntent::Capture }),
            );
            assert_eq!(connector_response_reference_id, Some(text("pay_1")));
        }
        _ => panic!("a transaction was expected"),
    }
}

#[test]
fn declined_payments() {
    let taken: PaymentsAuthorizeRouterData = match RouterData::try_from(ResponseRouterData {
        response: answer(CheckoutPaymentStatus::Declined),
        data: authorize_data(card()),
        http_code: 201,
    }) {
        Ok(data) => data,
        Err(_) => panic!("an answer was expected"),
    };
    assert!(is_payment_failure(taken.status));
    match taken.response {
        Err(error) => {
            assert_eq!(error.code, "20005");
            assert_eq!(error.message, "Declined - Do not honour");
            assert_eq!(error.reason, Some(text("Declined - Do not honour")));
            assert_eq!(error.status_code, 201);
            assert_eq!(error.connector_transaction_id, Some(text("pay_1")));
        }
        Ok(_) => panic!("an error was expected"),
    }
}

#[test]
fn scheduled_payments_are_not_supported() {
    let mut data = authorize_data(card());
    data.request.capture_method = Some(CaptureMethod::Scheduled);
    let taken: Result<PaymentsAuthorizeRouterData, ConnectorError> =
        RouterData::try_from(ResponseRouterData {
            response: answer(CheckoutPaymentStatus::Captured),
            data,
            http_code: 200,
        });
    assert!(taken.err() == Some(ConnectorError::CaptureMethodNotSupported));
}

fn sync_data() -> PaymentsSyncRouterData {
    data_for(
        PaymentsSyncData {
            connector_transaction_id: Ok(text("pay_1")),
            connector_meta: Ok(CheckoutMeta { psync_flow: CheckoutPaymentIntent::Authorize }),
        },
        no_answer(),
    )
}

#[test]
fn later_readings() {
    let taken: PaymentsSyncRouterData = match RouterData::try_from(ResponseRouterData {
        response: answer(CheckoutPaymentStatus::Authorized),
        data: sync_data(),
        http_code: 200,
    }) {
        Ok(data) => data,
        Err(_) => panic!("an answer was expected"),
    };
    assert!(taken.status == AttemptStatus::Authorized);
}

fn action(action_type: ActionType, approved: Option<bool>) -> ActionResponse {
    ActionResponse {
        action_id: text("act_7"),
        amount: MinorUnit(11),
        action_type,
        approved,
        reference: Some(text("cap_ref")),
    }
}

#[test]
fn captures_are_read_from_actions() {
    let read = capture_sync(&action(ActionType::Capture, Some(true)));
    assert_eq!(read.connector_capture_id, "act_7");
    assert!(read.status == AttemptStatus::Charged);
    assert_eq!(read.connector_reference_id, Some(text("cap_ref")));
    assert!(read.is_capture_response);
    assert!(read.amount == Some(MinorUnit(11)));
    assert!(!capture_sync(&action(ActionType::Refund, Some(true))).is_capture_response);
    assert!(capture_sync(&action(ActionType::Capture, Some(false))).status == AttemptStatus::Failure);
    assert!(capture_sync(&action(ActionType::Capture, None)).status == AttemptStatus::Pending);

    let taken: PaymentsSyncRouterData = match RouterData::try_from(ResponseRouterData {
        response: PaymentsResponseEnum::ActionResponse(vec![
            action(ActionType::Authorization, Some(true)),
            action(ActionType::Capture, Some(true)),
        ]),
        data: sync_data(),
        http_code: 200,
    }) {
        Ok(data) => data,
        Err(_) => panic!("captures were expected"),
    };
    match taken.response {
        Ok(PaymentsResponseData::MultipleCaptureResponse { captures }) => {
            assert_eq!(captures.len(), 2);
            assert!(!captures[0].is_capture_response);
            assert!(captures[1].is_capture_response);
            assert_eq!(captures[1].connector_capture_id, "act_7");
        }
        _ => panic!("captures were expected"),
    }
}

fn capture_data(multiple: bool) -> RouterData<PaymentsCaptureData, PaymentsResponseData> {
    data_for(
        PaymentsCaptureData {
            amount_to_capture: 30,
            minor_amount_to_capture: MinorUnit(30),
            minor_payment_amount: MinorUnit(100),
            connector_transaction_id: text("pay_1"),
            multiple_capture_data: if multiple {
                Some(MultipleCaptureRequestData { capture_sequence: 1, capture_reference: text("c1") })
            } else {
                None
            },
        },
        no_answer(),
    )
}

#[test]
fn capture_requests() {
    let data = capture_data(true);
    match PaymentCaptureRequest::try_from(&CheckoutRouterData::from((MinorUnit(30), &data))) {
        Ok(request) => {
            assert!(request.amount == Some(MinorUnit(30)));
            assert!(request.capture_type == Some(CaptureType::NonFinal));
            assert_eq!(request.reference, Some(text("c1")));
        }
        Err(_) => panic!("a request was expected"),
    }
    let data = capture_data(false);
    match PaymentCaptureRequest::try_from(&CheckoutRouterData::from((MinorUnit(30), &data))) {
        Ok(request) => {
            assert!(request.capture_type == Some(CaptureType::Final));
            assert_eq!(request.reference, None);
        }
        Err(_) => panic!("a request was expected"),
    }
}

#[test]
fn capture_answers() {
    let taken: RouterData<PaymentsCaptureData, PaymentsResponseData> =
        match RouterData::try_from(ResponseRouterData {
            response: PaymentCaptureResponse { action_id: text("act_9"), reference: None },
            data: capture_data(false),
            http_code: 202,
        }) {
            Ok(data) => data,
            Err(_) => panic!("an answer was expected"),
        };
    assert!(taken.status == AttemptStatus::Charged);
    assert_eq!(taken.amount_captured, Some(30));
    match taken.response {
        Ok(PaymentsResponseData::TransactionResponse { resource_id, .. }) => {
            assert!(resource_id == ResponseId::ConnectorTransactionId(text("pay_1")));
        }
        _ => panic!("a transaction was expected"),
    }
}

#[test]
fn voids() {
    let answer = |status: u16| PaymentVoidResponse {
        status,
        action_id: text("act"),
        reference: text("ref"),
    };
    assert!(AttemptStatus::from(&answer(202)) == AttemptStatus::Voided);
    assert!(AttemptStatus::from(&answer(403)) == AttemptStatus::VoidFailed);
    let data: RouterData<PaymentsCancelData, PaymentsResponseData> = data_for(
        PaymentsCancelData {
            connector_transaction_id: text("pay_1"),
            currency: Err(missing("currency")),
        },
        no_answer(),
    );
    match PaymentVoidRequest::try_from(&data) {
        Ok(request) => assert_eq!(request.reference, "pay_1"),
        Err(_) => panic!("a request was expected"),
    }
}

fn refund_data() -> RefundsRouterData {
    data_for(
        RefundsData {
            refund_id: text("ref_1"),
            connector_transaction_id: text("pay_1"),
            connector_refund_id: None,
        },
        RefundsResponseData { connector_refund_id: text(""), refund_status: RefundStatus::Pending },
    )
}

#[test]
fn refunds() {
    let data = refund_data();
    match RefundRequest::try_from(&CheckoutRouterData::from((MinorUnit(5), &data))) {
        Ok(request) => {
            assert!(request.amount == Some(MinorUnit(5)));
            assert_eq!(request.reference, "ref_1");
        }
        Err(_) => panic!("a request was expected"),
    }
    let told = |status: u16| CheckoutRefundResponse {
        status,
        response: RefundResponse { action_id: text("act_r"), reference: text("r") },
    };
    assert!(RefundStatus::from(&told(202)) == RefundStatus::Success);
    assert!(RefundStatus::from(&told(500)) == RefundStatus::Failure);
    let taken: RefundsRouterData = match RouterData::try_from(ResponseRouterData {
        response: told(202),
        data: refund_data(),
        http_code: 202,
    }) {
        Ok(data) => data,
        Err(_) => panic!("an answer was expected"),
    };
    assert!(
        taken.response
            == Ok(RefundsResponseData {
                connector_refund_id: text("act_r"),
                refund_status: RefundStatus::Success,
            })
    );
    assert!(RefundStatus::from(&action(ActionType::Refund, None)) == RefundStatus::Pending);
    assert!(RefundStatus::from(&action(ActionType::Refund, Some(true))) == RefundStatus::Success);
    assert!(RefundStatus::from(&action(ActionType::Refund, Some(false))) == RefundStatus::Failure);
}

#[test]
fn tokens() {
    let item = |wallet| {
        data_for(
            PaymentMethodTokenizationData { payment_method_data: wallet },
            no_answer(),
        )
    };
    let google = item(PaymentMethodData::Wallet(WalletData::GooglePay));
    assert!(TokenRequest::token_format(&google) == Ok(WalletTokenFormat::GooglePay));
    let apple = item(PaymentMethodData::Wallet(WalletData::ApplePay));
    assert!(TokenRequest::token_format(&apple) == Ok(WalletTokenFormat::ApplePay));
    assert!(TokenRequest::token_format(&item(card())).is_err());
    let decoded = WalletToken::GooglePay(CheckoutGooglePayData {
        protocol_version: secret("ECv1"),
        signature: secret("sig"),
        signed_message: secret("msg"),
    });
    match TokenRequest::try_from(&google, Ok(decoded)) {
        Ok(TokenRequest::Googlepay(data)) => assert!(data.signature == secret("sig")),
        _ => panic!("a Google Pay token was expected"),
    }
    let invalid = ConnectorError::InvalidWalletToken { wallet_name: "Google Pay" };
    assert!(TokenRequest::try_from(&google, Err(invalid)).err() == Some(invalid));
    let taken = match RouterData::try_from(ResponseRouterData {
        response: CheckoutTokenResponse { token: secret("tok_1") },
        data: google,
        http_code: 201,
    }) {
        Ok(data) => data,
        Err(_) => panic!("a token was expected"),
    };
    match taken.response {
        Ok(PaymentsResponseData::TokenizationResponse { token }) => assert_eq!(token, "tok_1"),
        _ => panic!("a token was expected"),
    }
}

#[test]
fn webhook_events() {
    assert!(is_refund_event(&CheckoutWebhookEventType::PaymentRefunded));
    assert!(is_refund_event(&CheckoutWebhookEventType::PaymentRefundDeclined));
    assert!(!is_refund_event(&CheckoutWebhookEventType::PaymentCaptured));
    assert!(is_chargeback_event(&CheckoutWebhookEventType::DisputeLost));
    assert!(!is_chargeback_event(&CheckoutWebhookEventType::PaymentVoided));
    assert!(
        CheckoutPaymentStatus::try_from(CheckoutWebhookEventType::PaymentCaptured)
            == Ok(CheckoutPaymentStatus::Captured)
    );
    assert!(
        CheckoutPaymentStatus::try_from(CheckoutWebhookEventType::PaymentRefunded)
            == Err(ConnectorError::WebhookEventTypeNotFound)
    );
    let refunded = IncomingWebhookEvent::from(CheckoutWebhookEventType::PaymentRefunded);
    assert!(refunded == IncomingWebhookEvent::RefundSuccess);
    assert!(WebhookFlow::from(refunded) == WebhookFlow::Refund);
    let opened = IncomingWebhookEvent::from(CheckoutWebhookEventType::DisputeReceived);
    assert!(opened == IncomingWebhookEvent::DisputeOpened);
    assert!(WebhookFlow::from(opened) == WebhookFlow::Dispute);
    let unknown = IncomingWebhookEvent::from(CheckoutWebhookEventType::Unknown);
    assert!(unknown == IncomingWebhookEvent::EventNotSupported);
}

fn webhook(event: CheckoutWebhookEventType) -> CheckoutWebhookBody {
    CheckoutWebhookBody {
        transaction_type: event,
        data: CheckoutWebhookData {
            id: text("id_1"),
            payment_id: Some(text("pay_1")),
            action_id: Some(text("act_1")),
            reference: Some(text("r1")),
            amount: MinorUnit(8),
            balances: None,
            response_code: None,
            response_summary: None,
            currency: text("EUR"),
            processed_on: None,
            approved: None,
        },
        links: Links { redirect: None },
    }
}

#[test]
fn webhook_bodies() {
    match PaymentsResponse::try_from(Some(webhook(CheckoutWebhookEventType::PaymentCaptured))) {
        Ok(response) => {
            assert_eq!(response.id, "pay_1");
            assert!(response.status == CheckoutPaymentStatus::Captured);
            assert!(response.amount == Some(MinorUnit(8)));
        }
        Err(_) => panic!("a payment was expected"),
    }
    match RefundResponse::try_from(Some(webhook(CheckoutWebhookEventType::PaymentRefunded))) {
        Ok(response) => {
            assert_eq!(response.action_id, "act_1");
            assert_eq!(response.reference, "r1");
        }
        Err(_) => panic!("a refund was expected"),
    }
    let failed = Some(ConnectorError::WebhookBodyDecodingFailed);
    assert!(RefundResponse::try_from(None).err() == failed);
    assert!(PaymentsResponse::try_from(None).err() == failed);
    let mut body = webhook(CheckoutWebhookEventType::PaymentRefunded);
    body.data.action_id = None;
    assert!(RefundResponse::try_from(Some(body)).err() == failed);
}

#[test]
fn disputes() {
    assert!(
        DisputeStage::from(CheckoutDisputeTransactionType::DisputeArbitrationLost)
            == DisputeStage::PreArbitration
    );
    assert!(
        DisputeStage::from(CheckoutDisputeTransactionType::DisputeReceived)
            == DisputeStage::Dispute
    );
}

#[test]
fn evidence_files() {
    let upload = |file_type: &str| {
        construct_file_upload_request(UploadFileRequestData {
            file_key: text("evidence"),
            file: vec![1, 2],
            file_type: text(file_type),
        })
    };
    match upload("image/png") {
        Ok(file) => {
            assert_eq!(file.purpose, "dispute_evidence");
            assert_eq!(file.file_name, "evidence.png");
            assert_eq!(file.media_type, "image/png");
            assert_eq!(file.file, vec![1, 2]);
        }
        Err(_) => panic!("a file was expected"),
    }
    assert!(upload("no media type").err() == Some(ConnectorError::RequestEncodingFailed));
    let item: SubmitEvidenceRouterData = data_for(
        SubmitEvidenceRequestData {
            shipping_documentation_provider_file_id: Some(text("f1")),
            receipt_provider_file_id: Some(text("f2")),
            invoice_showing_distinct_transactions_provider_file_id: None,
            customer_communication_provider_file_id: None,
            refund_policy_provider_file_id: None,
            recurring_transaction_agreement_provider_file_id: None,
            uncategorized_file_provider_file_id: Some(text("f7")),
        },
        (),
    );
    match Evidence::try_from(&item) {
        Ok(evidence) => {
            assert_eq!(evidence.proof_of_delivery_or_service_file, Some(text("f1")));
            assert_eq!(evidence.invoice_or_receipt_file, Some(text("f2")));
            assert_eq!(evidence.additional_evidence_file, Some(text("f7")));
        }
        Err(_) => panic!("evidence was expected"),
    }
}

#[test]
fn redirects_and_errors() {
    assert!(
        AttemptStatus::from(CheckoutRedirectResponseStatus::Success)
            == AttemptStatus::AuthenticationSuccessful
    );
    assert!(
        AttemptStatus::from(CheckoutRedirectResponseStatus::Failure) == AttemptStatus::Failure
    );
    let told = ErrorCodeAndMessage::from(text("card_expired"));
    assert_eq!(told.error_code, "card_expired");
    assert_eq!(told.error_message, "card_expired");
}
