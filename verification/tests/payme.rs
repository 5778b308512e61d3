use hyperswitch::enums::{
    AttemptStatus, AuthenticationType, CaptureMethod, Currency, MinorUnit, PaymentMethod,
    RefundStatus,
};
use hyperswitch::errors::{ConnectorError, Unimplemented};
use hyperswitch::payme::payments::{
    get_pay_sale_error_response, get_sale_query_error_response, write_code, MandateRequest,
    Pay3dsRequest, PayRequest, PaymePaySaleResponse, PaymePaymentRequest, PaymePaymentsResponse,
    PaymeQuerySaleRequest, PaymeRedirectResponseData, PaymeVoidRequest, PaymeVoidResponse,
    PaymentCaptureRequest, SaleQuery, SaleQueryResponse, SaleStatus,
};
use hyperswitch::payme::refunds::{
    PaymeQueryTransactionRequest, PaymeQueryTransactionResponse, PaymeRefundRequest,
    PaymeRefundResponse, TransactionQuery,
};
use hyperswitch::payme::sales::{
    get_services, CaptureBuyerRequest, CaptureBuyerResponse, GenerateSaleRequest,
    GenerateSaleResponse, PaymeAuthType, PaymeRouterData, SalePaymentMethod, SaleType,
};
use hyperswitch::payme::webhooks::{NotifyType, WebhookEventDataResource};
use hyperswitch::payment_data::{Card, PaymentMethodData, PaymentMethodToken, WalletData};
use hyperswitch::router_data::{
    BillingDetails, CompleteAuthorizeData, ConnectorAuthType, OrderDetails,
    PaymentMethodTokenizationData, PaymentsAuthorizeData, PaymentsAuthorizeRouterData,
    PaymentsCancelData, PaymentsCancelRouterData, PaymentsCaptureData, PaymentsCaptureRouterData,
    PaymentsCompleteAuthorizeRouterData, PaymentsPreProcessingData,
    PaymentsPreProcessingRouterData, PaymentsResponseData, PaymentsSyncData,
    PaymentsSyncRouterData, PreprocessingResponseId, RedirectForm, RedirectionData, RefundsData,
    RefundsResponseData, RefundsRouterData, ResponseId, ResponseRouterData, RouterData,
};
use hyperswitch::secret::Secret;
use hyperswitch::webhooks::{IncomingWebhookEvent, WebhookFlow};

fn text(value: &str) -> String {
    value.to_string()
}

fn secret(value: &str) -> Secret<String> {
    Secret::new(value.to_string())
}

fn missing(field_name: &'static str) -> ConnectorError {
    ConnectorError::MissingRequiredField { field_name }
}

fn euro() -> Currency {
    Currency { code: text("EUR") }
}

fn keys() -> ConnectorAuthType {
    ConnectorAuthType::SignatureKey {
        api_key: secret("seller"),
        key1: secret("public"),
        api_secret: secret("merchant"),
    }
}

fn data_for<Req, Resp>(request: Req, response: Resp) -> RouterData<Req, Resp> {
    RouterData {
        connector: text("payme"),
        merchant_id: text("merchant"),
        payment_id: text("pay"),
        attempt_id: text("att"),
        status: AttemptStatus::Started,
        payment_method: PaymentMethod::Card,
        auth_type: AuthenticationType::NoThreeDs,
        connector_auth_type: keys(),
        billing: BillingDetails { full_name: Ok(secret("Ada L")), country: Ok(text("IL")) },
        payment_method_token: None,
        preprocessing_id: Some(text("sale_1")),
        connector_request_reference_id: text("ref"),
        amount_captured: None,
        refund_id: None,
        dispute_id: None,
        connector_http_status_code: None,
        external_latency: None,
        raw_connector_response: None,
        request,
        response: Ok(response),
    }
}

fn no_answer() -> PaymentsResponseData {
    PaymentsResponseData::TokenizationResponse { token: text("none") }
}

fn card() -> PaymentMethodData {
    PaymentMethodData::Card(Card {
        card_number: secret("4242424242424242"),
        card_exp_month: secret("08"),
        card_exp_year: secret("2031"),
        card_cvc: secret("100"),
        expiry_month_year: Ok(secret("0831")),
    })
}

fn orders() -> Result<Vec<OrderDetails>, ConnectorError> {
    Ok(vec![
        OrderDetails { product_name: text("Tea") },
        OrderDetails { product_name: text("Pot") },
    ])
}

fn preprocessing(method: Option<PaymentMethodData>) -> PaymentsPreProcessingRouterData {
    data_for(
        PaymentsPreProcessingData {
            payment_method_data: method,
            currency: Ok(euro()),
            order_details: orders(),
            router_return_url: Ok(text("https://shop.example/back")),
            webhook_url: Ok(text("https://switch.example/hook")),
            auto_capture: Ok(true),
            sets_up_mandate: false,
        },
        no_answer(),
    )
}

fn authorize(method: PaymentMethodData) -> PaymentsAuthorizeRouterData {
    data_for(
        PaymentsAuthorizeData {
            payment_method_data: method,
            currency: euro(),
            capture_method: Some(CaptureMethod::Automatic),
            router_return_url: Some(text("https://shop.example/back")),
            webhook_url: Ok(text("https://switch.example/hook")),
            email: Ok(secret("ada@example.org")),
            order_details: orders(),
            has_mandate: false,
            connector_mandate_id: Ok(text("buyer_key")),
            authentication_data: None,
            metadata: None,
        },
        no_answer(),
    )
}

fn payme<T>(data: T) -> PaymeRouterData<T> {
    match PaymeRouterData::try_from((MinorUnit(700), data)) {
        Ok(data) => data,
        Err(_) => panic!("the amount is taken as it is"),
    }
}

#[test]
fn sales_are_prepared() {
    let data = preprocessing(Some(card()));
    match GenerateSaleRequest::try_from(&payme(&data)) {
        Ok(request) => {
            assert!(request.currency == euro());
            assert!(request.sale_type == SaleType::Sale);
            assert!(request.sale_price == MinorUnit(700));
            assert_eq!(request.transaction_id, "pay");
            assert_eq!(request.product_name, "Tea");
            assert_eq!(request.sale_return_url, "https://shop.example/back");
            assert_eq!(request.sale_callback_url, "https://switch.example/hook");
            assert!(request.seller_payme_id == secret("seller"));
            assert!(request.sale_payment_method == SalePaymentMethod::CreditCard);
            assert!(request.services.is_none());
            assert_eq!(request.language, "en");
        }
        Err(_) => panic!("a request was expected"),
    }
}

#[test]
fn kinds_of_sales() {
    let mut data = preprocessing(Some(card()));
    assert!(SaleType::try_from(&data) == Ok(SaleType::Sale));
    data.request.auto_capture = Ok(false);
    assert!(SaleType::try_from(&data) == Ok(SaleType::Authorize));
    data.request.auto_capture = Err(ConnectorError::CaptureMethodNotSupported);
    assert!(SaleType::try_from(&data) == Err(ConnectorError::CaptureMethodNotSupported));
    data.request.sets_up_mandate = true;
    assert!(SaleType::try_from(&data) == Ok(SaleType::Token));
    assert!(get_services(&data).is_none());
    data.auth_type = AuthenticationType::ThreeDs;
    assert!(get_services(&data).unwrap().settings.active);
}

#[test]
fn payment_methods_of_sales() {
    assert!(SalePaymentMethod::try_from(&card()) == Ok(SalePaymentMethod::CreditCard));
    let apple = PaymentMethodData::Wallet(WalletData::ApplePayThirdPartySdk);
    assert!(SalePaymentMethod::try_from(&apple) == Ok(SalePaymentMethod::ApplePay));
    let paypal = PaymentMethodData::Wallet(WalletData::PaypalSdk);
    assert!(
        SalePaymentMethod::try_from(&paypal)
            == Err(ConnectorError::NotSupported { message: "Wallet", connector: "payme" })
    );
    assert!(
        SalePaymentMethod::try_from(&PaymentMethodData::Upi)
            == Err(ConnectorError::NotImplemented(Unimplemented::Feature("Payment methods")))
    );
}

fn prepared(data: PaymentsPreProcessingRouterData) -> PaymentsPreProcessingRouterData {
    let item = ResponseRouterData {
        response: GenerateSaleResponse { payme_sale_id: text("sale_9") },
        data,
        http_code: 200,
    };
    match PaymentsPreProcessingRouterData::foreign_try_from((item, text("7.00"))) {
        Ok(data) => data,
        Err(_) => panic!("a sale was expected"),
    }
}

#[test]
fn prepared_card_sales() {
    let taken = prepared(preprocessing(Some(card())));
    assert!(taken.status == AttemptStatus::Pending);
    assert_eq!(taken.preprocessing_id, Some(text("sale_9")));
    match taken.response {
        Ok(PaymentsResponseData::PreProcessingResponse { pre_processing_id, session_token, .. }) => {
            assert!(
                pre_processing_id
                    == PreprocessingResponseId::ConnectorTransactionId(text("sale_9"))
            );
            assert!(session_token.is_none());
        }
        _ => panic!("a prepared sale was expected"),
    }
    let mut data = preprocessing(Some(card()));
    data.auth_type = AuthenticationType::ThreeDs;
    let taken = prepared(data);
    assert!(taken.status == AttemptStatus::AuthenticationPending);
    match taken.response {
        Ok(PaymentsResponseData::TransactionResponse { redirection_data, .. }) => {
            assert!(matches!(
                redirection_data,
                Some(RedirectionData::Page(RedirectForm::Payme))
            ));
        }
        _ => panic!("a redirection was expected"),
    }
}

#[test]
fn prepared_apple_pay_sales() {
    let mut data =
        preprocessing(Some(PaymentMethodData::Wallet(WalletData::ApplePayThirdPartySdk)));
    data.payment_method = PaymentMethod::Wallet;
    match prepared(data).response {
        Ok(PaymentsResponseData::PreProcessingResponse { session_token: Some(token), .. }) => {
            assert!(token.no_session_response);
            assert_eq!(token.connector, "payme");
            assert_eq!(token.connector_reference_id, Some(text("sale_9")));
            assert_eq!(token.connector_sdk_public_key, Some(text("public")));
            assert_eq!(token.connector_merchant_id, Some(text("merchant")));
            let request = token.payment_request_data.unwrap();
            assert_eq!(request.label, "Apple Pay");
            assert_eq!(request.amount, "7.00");
            assert_eq!(request.country_code, "IL");
        }
        _ => panic!("a session was expected"),
    }
}

#[test]
fn auth_types_of_payme() {
    match PaymeAuthType::try_from(&keys()) {
        Ok(auth) => {
            assert!(auth.seller_payme_id == secret("seller"));
            assert!(auth.payme_public_key == secret("public"));
            assert!(auth.payme_merchant_id == Some(secret("merchant")));
        }
        Err(_) => panic!("keys were expected"),
    }
    let two = ConnectorAuthType::BodyKey { api_key: secret("seller"), key1: secret("public") };
    match PaymeAuthType::try_from(&two) {
        Ok(auth) => assert!(auth.payme_merchant_id.is_none()),
        Err(_) => panic!("keys were expected"),
    }
    assert!(
        PaymeAuthType::try_from(&ConnectorAuthType::NoKey).err()
            == Some(ConnectorError::FailedToObtainAuthType)
    );
}

#[test]
fn pay_requests() {
    let data = authorize(card());
    match PayRequest::try_from(&data) {
        Ok(request) => {
            assert!(request.buyer_email == secret("ada@example.org"));
            assert!(request.buyer_name == secret("Ada L"));
            assert_eq!(request.payme_sale_id, "sale_1");
            assert!(request.card.credit_card_exp == secret("0831"));
            assert!(request.card.credit_card_cvv == secret("100"));
            assert_eq!(request.language, "en");
        }
        Err(_) => panic!("a request was expected"),
    }
    let mut data = authorize(card());
    data.preprocessing_id = None;
    assert!(PayRequest::try_from(&data).is_err());
    assert!(PayRequest::try_from(&authorize(PaymentMethodData::Crypto)).is_err());
}

#[test]
fn mandate_requests() {
    let mut data = authorize(PaymentMethodData::MandatePayment);
    data.request.has_mandate = true;
    match PaymePaymentRequest::try_from(&payme(&data)) {
        Ok(PaymePaymentRequest::MandateRequest(request)) => {
            assert!(request.buyer_key == secret("buyer_key"));
            assert!(request.sale_price == MinorUnit(700));
            assert_eq!(request.product_name, "Tea");
        }
        _ => panic!("a mandate was expected"),
    }
    assert!(MandateRequest::try_from(&payme(&data)).is_ok());
    let data = authorize(card());
    assert!(matches!(
        PaymePaymentRequest::try_from(&payme(&data)),
        Ok(PaymePaymentRequest::PayRequest(_))
    ));
    let mut data = authorize(PaymentMethodData::MandatePayment);
    data.request.order_details = Ok(vec![]);
    assert!(MandateRequest::try_from(&payme(&data)).is_err());
}

fn complete() -> PaymentsCompleteAuthorizeRouterData {
    let mut data = data_for(
        CompleteAuthorizeData {
            payment_method_data: Some(card()),
            email: Ok(secret("ada@example.org")),
            redirect_payload: Ok(Secret::new(serde_json::Value::Null)),
            connector_transaction_id: Some(text("sale_1")),
        },
        no_answer(),
    );
    data.payment_method_token = Some(PaymentMethodToken::Token(secret("buyer")));
    data
}

#[test]
fn payments_after_the_redirect() {
    let decoded = || Some(PaymeRedirectResponseData { meta_data: text("jwt") });
    match Pay3dsRequest::try_from(&complete(), decoded()) {
        Ok(request) => {
            assert!(request.buyer_key == secret("buyer"));
            assert!(request.meta_data_jwt == secret("jwt"));
            assert_eq!(request.payme_sale_id, "sale_1");
        }
        Err(_) => panic!("a request was expected"),
    }
    assert!(
        Pay3dsRequest::try_from(&complete(), None).err()
            == Some(ConnectorError::MissingConnectorRedirectionPayload {
                field_name: "meta_data_jwt"
            })
    );
    let mut data = complete();
    data.request.connector_transaction_id = None;
    assert!(
        Pay3dsRequest::try_from(&data, decoded()).err()
            == Some(ConnectorError::MissingConnectorTransactionID)
    );
    let mut data = complete();
    data.request.payment_method_data = None;
    assert!(
        Pay3dsRequest::try_from(&data, decoded()).err()
            == Some(ConnectorError::NotImplemented(Unimplemented::Feature("Tokenize Flow")))
    );
}

#[test]
fn sale_statuses() {
    assert!(AttemptStatus::from(SaleStatus::Initial) == AttemptStatus::Authorizing);
    assert!(AttemptStatus::from(SaleStatus::Completed) == AttemptStatus::Charged);
    assert!(AttemptStatus::from(SaleStatus::Refunded) == AttemptStatus::AutoRefunded);
    assert!(AttemptStatus::from(SaleStatus::Authorized) == AttemptStatus::Authorized);
    assert!(AttemptStatus::from(SaleStatus::PartialVoid) == AttemptStatus::Voided);
    assert!(AttemptStatus::from(SaleStatus::Failed) == AttemptStatus::Failure);
    assert!(AttemptStatus::from(SaleStatus::Chargeback) == AttemptStatus::AutoRefunded);
    assert!(RefundStatus::try_from(SaleStatus::PartialRefund) == Ok(RefundStatus::Success));
    assert!(RefundStatus::try_from(SaleStatus::Failed) == Ok(RefundStatus::Failure));
    assert!(
        RefundStatus::try_from(SaleStatus::Completed)
            == Err(ConnectorError::ResponseHandlingFailed)
    );
}

fn sale(sale_status: SaleStatus) -> PaymePaySaleResponse {
    PaymePaySaleResponse {
        sale_status,
        payme_sale_id: text("sale_1"),
        payme_transaction_id: Some(text("txn_1")),
        buyer_key: Some(secret("buyer")),
        status_error_details: Some(text("no funds")),
        status_error_code: Some(351),
        sale_3ds: None,
        redirect_url: None,
    }
}

#[test]
fn answers_to_sales() {
    let taken = |response| -> PaymentsAuthorizeRouterData {
        match RouterData::try_from(ResponseRouterData {
            response: PaymePaymentsResponse::PaymePaySaleResponse(response),
            data: authorize(card()),
            http_code: 200,
        }) {
            Ok(data) => data,
            Err(_) => panic!("an answer was expected"),
        }
    };
    let data = taken(sale(SaleStatus::Completed));
    assert!(data.status == AttemptStatus::Charged);
    match data.response {
        Ok(PaymentsResponseData::TransactionResponse { resource_id, mandate_reference, .. }) => {
            assert!(resource_id == ResponseId::ConnectorTransactionId(text("sale_1")));
            assert_eq!(mandate_reference.unwrap().connector_mandate_id, Some(text("buyer")));
        }
        _ => panic!("a transaction was expected"),
    }
    let data = taken(sale(SaleStatus::Failed));
    assert!(data.status == AttemptStatus::Failure);
    assert!(
        data.response.err()
            == Some(get_pay_sale_error_response((&sale(SaleStatus::Failed), 200)))
    );
    let error = get_pay_sale_error_response((&sale(SaleStatus::Failed), 200));
    assert_eq!(error.code, "351");
    assert_eq!(error.message, "no funds");
    assert_eq!(error.connector_transaction_id, Some(text("sale_1")));
    assert_eq!(write_code(None), None);
    assert_eq!(write_code(Some(0)), Some(text("0")));
}

#[test]
fn answers_to_queries() {
    let query = |sale_status| SaleQuery {
        sale_status,
        sale_payme_id: text("sale_3"),
        sale_error_text: None,
        sale_error_code: None,
    };
    let error = get_sale_query_error_response((&query(SaleStatus::Failed), 200));
    assert_eq!(error.code, "No error code");
    assert_eq!(error.message, "No error message");
    let taken = |items| -> Result<PaymentsSyncRouterData, ConnectorError> {
        RouterData::try_from(ResponseRouterData {
            response: SaleQueryResponse { items },
            data: sync(),
            http_code: 200,
        })
    };
    match taken(vec![query(SaleStatus::Authorized), query(SaleStatus::Failed)]) {
        Ok(data) => assert!(data.status == AttemptStatus::Authorized),
        Err(_) => panic!("an answer was expected"),
    }
    assert!(taken(vec![]).err() == Some(ConnectorError::ResponseHandlingFailed));
}

fn sync() -> PaymentsSyncRouterData {
    data_for(
        PaymentsSyncData {
            connector_transaction_id: Ok(text("sale_1")),
            connector_meta: Err(missing("meta")),
        },
        no_answer(),
    )
}

#[test]
fn later_requests() {
    match PaymeQuerySaleRequest::try_from(&sync()) {
        Ok(request) => {
            assert_eq!(request.sale_payme_id, "sale_1");
            assert!(request.seller_payme_id == secret("seller"));
        }
        Err(_) => panic!("a request was expected"),
    }
    let capture = |amount_to_capture: i64| -> PaymentsCaptureRouterData {
        data_for(
            PaymentsCaptureData {
                amount_to_capture,
                minor_amount_to_capture: MinorUnit(amount_to_capture),
                minor_payment_amount: MinorUnit(700),
                connector_transaction_id: text("sale_1"),
                multiple_capture_data: None,
            },
            no_answer(),
        )
    };
    match PaymentCaptureRequest::try_from(&payme(&capture(700))) {
        Ok(request) => {
            assert_eq!(request.payme_sale_id, "sale_1");
            assert!(request.sale_price == MinorUnit(700));
        }
        Err(_) => panic!("a request was expected"),
    }
    assert!(
        PaymentCaptureRequest::try_from(&payme(&capture(1))).err()
            == Some(ConnectorError::NotSupported { message: "Partial Capture", connector: "Payme" })
    );
    let cancel: PaymentsCancelRouterData = data_for(
        PaymentsCancelData { connector_transaction_id: text("sale_1"), currency: Ok(euro()) },
        no_answer(),
    );
    match PaymeVoidRequest::try_from(&payme(&cancel)) {
        Ok(request) => {
            assert!(request.sale_currency == euro());
            assert_eq!(request.payme_sale_id, "sale_1");
            assert_eq!(request.language, "en");
        }
        Err(_) => panic!("a request was expected"),
    }
    let voided = |sale_status| -> PaymentsCancelRouterData {
        match RouterData::try_from(ResponseRouterData {
            response: PaymeVoidResponse {
                sale_status,
                payme_transaction_id: Some(text("txn_2")),
                status_error_code: None,
            },
            data: data_for(
                PaymentsCancelData { connector_transaction_id: text("sale_1"), currency: Ok(euro()) },
                no_answer(),
            ),
            http_code: 200,
        }) {
            Ok(data) => data,
            Err(_) => panic!("an answer was expected"),
        }
    };
    assert!(voided(SaleStatus::Voided).status == AttemptStatus::Voided);
    assert!(voided(SaleStatus::Failed).response.is_err());
}

#[test]
fn buyers_are_captured() {
    let data = data_for(
        PaymentMethodTokenizationData { payment_method_data: card() },
        no_answer(),
    );
    match CaptureBuyerRequest::try_from(&data) {
        Ok(request) => {
            assert!(request.seller_payme_id == secret("seller"));
            assert!(request.card.credit_card_number == secret("4242424242424242"));
        }
        Err(_) => panic!("a request was expected"),
    }
    let taken = match RouterData::try_from(ResponseRouterData {
        response: CaptureBuyerResponse { buyer_key: secret("buyer") },
        data,
        http_code: 200,
    }) {
        Ok(data) => data,
        Err(_) => panic!("an answer was expected"),
    };
    match taken.response {
        Ok(PaymentsResponseData::TokenizationResponse { token }) => assert_eq!(token, "buyer"),
        _ => panic!("a token was expected"),
    }
}

fn refund() -> RefundsRouterData {
    data_for(
        RefundsData {
            refund_id: text("ref_1"),
            connector_transaction_id: text("sale_1"),
            connector_refund_id: Some(text("txn_9")),
        },
        RefundsResponseData { connector_refund_id: text(""), refund_status: RefundStatus::Pending },
    )
}

#[test]
fn refunds_at_payme() {
    let data = refund();
    match PaymeRefundRequest::try_from(&payme(&data)) {
        Ok(request) => {
            assert!(request.sale_refund_amount == MinorUnit(700));
            assert_eq!(request.payme_sale_id, "sale_1");
            assert_eq!(request.language, "en");
        }
        Err(_) => panic!("a request was expected"),
    }
    match PaymeQueryTransactionRequest::try_from(&data) {
        Ok(request) => assert_eq!(request.payme_transaction_id, "txn_9"),
        Err(_) => panic!("a request was expected"),
    }
    let mut without = refund();
    without.request.connector_refund_id = None;
    assert!(
        PaymeQueryTransactionRequest::try_from(&without).err()
            == Some(ConnectorError::MissingConnectorRefundID)
    );
    let taken = |sale_status, payme_transaction_id| -> Result<RefundsRouterData, ConnectorError> {
        RouterData::try_from(ResponseRouterData {
            response: PaymeRefundResponse {
                sale_status,
                payme_transaction_id,
                status_error_code: Some(1),
            },
            data: refund(),
            http_code: 200,
        })
    };
    match taken(SaleStatus::Refunded, Some(text("txn_3"))) {
        Ok(data) => assert!(
            data.response
                == Ok(RefundsResponseData {
                    connector_refund_id: text("txn_3"),
                    refund_status: RefundStatus::Success,
                })
        ),
        Err(_) => panic!("an answer was expected"),
    }
    match taken(SaleStatus::Failed, None) {
        Ok(data) => assert!(data.response.is_err()),
        Err(_) => panic!("an answer was expected"),
    }
    assert!(
        taken(SaleStatus::Completed, None).err() == Some(ConnectorError::ResponseHandlingFailed)
    );
    let queried: Result<RefundsRouterData, ConnectorError> =
        RouterData::try_from(ResponseRouterData {
            response: PaymeQueryTransactionResponse {
                items: vec![TransactionQuery {
                    sale_status: SaleStatus::Refunded,
                    payme_transaction_id: text("txn_4"),
                }],
            },
            data: refund(),
            http_code: 200,
        });
    match queried {
        Ok(data) => assert!(
            data.response
                == Ok(RefundsResponseData {
                    connector_refund_id: text("txn_4"),
                    refund_status: RefundStatus::Success,
                })
        ),
        Err(_) => panic!("an answer was expected"),
    }
}

#[test]
fn reports_of_payme() {
    assert!(
        IncomingWebhookEvent::from(NotifyType::SaleComplete)
            == IncomingWebhookEvent::PaymentIntentSuccess
    );
    let refund = IncomingWebhookEvent::from(NotifyType::Refund);
    assert!(WebhookFlow::from(refund) == WebhookFlow::Refund);
    let dispute = IncomingWebhookEvent::from(NotifyType::SaleChargeback);
    assert!(WebhookFlow::from(dispute) == WebhookFlow::Dispute);
    let report = || WebhookEventDataResource {
        sale_status: SaleStatus::Refunded,
        payme_signature: secret("sig"),
        buyer_key: None,
        notify_type: NotifyType::Refund,
        payme_sale_id: text("sale_5"),
        payme_transaction_id: text("txn_5"),
        status_error_details: None,
        status_error_code: None,
        price: MinorUnit(1),
        currency: euro(),
    };
    let read = PaymePaySaleResponse::from(report());
    assert!(read.sale_status == SaleStatus::Refunded);
    assert_eq!(read.payme_transaction_id, Some(text("txn_5")));
    let read = PaymeQueryTransactionResponse::from(report());
    assert_eq!(read.items.len(), 1);
    assert_eq!(read.items[0].payme_transaction_id, "txn_5");
}
