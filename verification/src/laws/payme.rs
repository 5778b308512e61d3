//! Laws of sales, payments, refunds and reports at Payme.
use vstd::prelude::*;
use crate::enums::{is_payment_failure, is_refund_failure, AttemptStatus, AuthenticationType, Method, MinorUnit, PaymentMethod, RefundStatus};
use crate::errors::{ConnectorError, Unimplemented};
use crate::payme::payments::{MandateRequest, Pay3dsRequest, PayRequest, PaymePaySaleResponse, PaymePaymentRequest, PaymePaymentsResponse, PaymeQuerySaleRequest, PaymeRedirectResponseData, PaymeVoidRequest, PaymeVoidResponse, PaymentCaptureRequest, SaleQuery, SaleQueryResponse, SaleStatus};
use crate::payme::refunds::{PaymeQueryTransactionRequest, PaymeQueryTransactionResponse, PaymeRefundRequest, PaymeRefundResponse};
use crate::payme::sales::{CaptureBuyerRequest, CaptureBuyerResponse, GenerateSaleRequest, GenerateSaleResponse, PaymeAuthType, PaymeRouterData, SalePaymentMethod, SaleType};
use crate::payme::webhooks::{NotifyType, WebhookEventDataResource};
use crate::payment_data::{PaymentMethodData, PaymentMethodToken, WalletData};
use crate::router_data::{ConnectorAuthType, ErrorResponse, PaymentsAuthorizeRouterData, PaymentsCancelData, PaymentsCancelRouterData, PaymentsCaptureRouterData, PaymentsCompleteAuthorizeRouterData, PaymentsPreProcessingData, PaymentsPreProcessingRouterData, PaymentsResponseData, PaymentsSyncRouterData, PreprocessingResponseId, RedirectForm, RedirectionData, RefundsData, RefundsResponseData, RefundsRouterData, ResponseId, ResponseRouterData, RouterData, TokenizationRouterData};
use crate::secret::Secret;
use crate::webhooks::IncomingWebhookEvent;

verus! {

/// Whether a merchant gave the keys that Payme is used with, and this is the seller among them.
pub open spec fn is_seller(auth: ConnectorAuthType, seller: Secret<String>) -> bool {
    ||| auth is BodyKey && auth->BodyKey_api_key == seller
    ||| auth is SignatureKey && auth->SignatureKey_api_key == seller
}

/// A call of Payme holds the amount and the data that it was made from.
pub proof fn law_call_holds_its_amount<T>(
    amount: MinorUnit,
    data: T,
    res: Result<PaymeRouterData<T>, ConnectorError>,
)
    requires
        call_ensures(
            <PaymeRouterData<T> as TryFrom<(MinorUnit, T)>>::try_from,
            ((amount, data),),
            res,
        ),
    ensures
        res is Ok,
        res->Ok_0.amount == amount,
        res->Ok_0.router_data == data,
{
}

/// Payme is used with the keys of the merchant, each for its own purpose.
pub proof fn law_keys_are_the_merchants<'a>(
    auth: &'a ConnectorAuthType,
    res: Result<PaymeAuthType, ConnectorError>,
    seller: Result<Secret<String>, ConnectorError>,
)
    requires
        call_ensures(<PaymeAuthType as TryFrom<&'a ConnectorAuthType>>::try_from, (auth,), res),
        call_ensures(crate::payme::sales::get_seller, (auth,), seller),
    ensures
        res is Ok <==> *auth is BodyKey || *auth is SignatureKey,
        res is Err ==> res->Err_0 is FailedToObtainAuthType,
        *auth is BodyKey ==> res->Ok_0.seller_payme_id == auth->BodyKey_api_key
            && res->Ok_0.payme_public_key == auth->BodyKey_key1 && res->Ok_0.payme_merchant_id
            is None,
        *auth is SignatureKey ==> res->Ok_0.seller_payme_id == auth->SignatureKey_api_key
            && res->Ok_0.payme_public_key == auth->SignatureKey_key1 && res->Ok_0.payme_merchant_id
            == Some(auth->SignatureKey_api_secret),
        seller is Ok <==> res is Ok,
        seller is Ok ==> is_seller(*auth, seller->Ok_0),
        seller is Err ==> seller->Err_0 is FailedToObtainAuthType,
{
}

/// A sale that sets up a mandate is for a token; any other is a sale where it is captured by
/// itself, and an authorization where not.
pub proof fn law_sale_type_is_the_wanted_one<'a>(
    item: &'a PaymentsPreProcessingRouterData,
    res: Result<SaleType, ConnectorError>,
)
    requires
        call_ensures(
            <SaleType as TryFrom<&'a PaymentsPreProcessingRouterData>>::try_from,
            (item,),
            res,
        ),
    ensures
        item.request.sets_up_mandate ==> res is Ok && res->Ok_0 is Token,
        !item.request.sets_up_mandate ==> {
            &&& item.request.auto_capture matches Ok(true) ==> res is Ok && res->Ok_0 is Sale
            &&& item.request.auto_capture matches Ok(false) ==> res is Ok && res->Ok_0 is Authorize
            &&& item.request.auto_capture matches Err(error) ==> res is Err && res->Err_0 == error
        },
{
}

/// A sale is paid by card or by Apple Pay on the device, and by nothing else.
pub proof fn law_sale_is_paid_by_its_method<'a>(
    by: &'a PaymentMethodData,
    res: Result<SalePaymentMethod, ConnectorError>,
)
    requires
        call_ensures(<SalePaymentMethod as TryFrom<&'a PaymentMethodData>>::try_from, (by,), res),
    ensures
        res is Ok && res->Ok_0 is CreditCard <==> *by is Card,
        res is Ok && res->Ok_0 is ApplePay <==> *by is Wallet && by->Wallet_0
            is ApplePayThirdPartySdk,
        res is Err && *by is Wallet ==> res->Err_0 == (ConnectorError::NotSupported {
            message: "Wallet",
            connector: "payme",
        }),
        res is Err && *by !is Wallet ==> res->Err_0 == ConnectorError::NotImplemented(
            Unimplemented::Feature("Payment methods"),
        ),
{
}

/// A sale is prepared as the payment wants it: of its amount in its currency, under its id, for
/// the merchant, named after the first thing that is bought, with the places to come back to, and
/// with 3-D Secure exactly where that is wanted.
pub proof fn law_prepared_sale_is_the_wanted_one<'a, 'b>(
    item: &'a PaymeRouterData<&'b PaymentsPreProcessingRouterData>,
    sale_type: Result<SaleType, ConnectorError>,
    method: Result<SalePaymentMethod, ConnectorError>,
    res: Result<GenerateSaleRequest, ConnectorError>,
)
    requires
        call_ensures(
            <GenerateSaleRequest as TryFrom<
                &'a PaymeRouterData<&'b PaymentsPreProcessingRouterData>,
            >>::try_from,
            (item,),
            res,
        ),
        call_ensures(
            <SaleType as TryFrom<&'b PaymentsPreProcessingRouterData>>::try_from,
            (item.router_data,),
            sale_type,
        ),
        item.router_data.request.payment_method_data matches Some(by) ==> call_ensures(
            <SalePaymentMethod as TryFrom<&'b PaymentMethodData>>::try_from,
            (&by,),
            method,
        ),
    ensures
        res is Ok <==> {
            let payment = item.router_data;
            &&& sale_type is Ok
            &&& payment.connector_auth_type is BodyKey || payment.connector_auth_type is SignatureKey
            &&& payment.request.order_details is Ok
            &&& payment.request.order_details->Ok_0@.len() > 0
            &&& payment.request.payment_method_data is Some
            &&& payment.request.currency is Ok
            &&& method is Ok
            &&& payment.request.router_return_url is Ok
            &&& payment.request.webhook_url is Ok
        },
        res matches Ok(sale) ==> {
            let payment = item.router_data;
            &&& sale.sale_price == item.amount
            &&& sale.currency == payment.request.currency->Ok_0
            &&& sale.transaction_id == payment.payment_id
            &&& sale.sale_type == sale_type->Ok_0
            &&& sale.sale_payment_method == method->Ok_0
            &&& sale.product_name == payment.request.order_details->Ok_0@[0].product_name
            &&& sale.sale_return_url == payment.request.router_return_url->Ok_0
            &&& sale.sale_callback_url == payment.request.webhook_url->Ok_0
            &&& is_seller(payment.connector_auth_type, sale.seller_payme_id)
            &&& sale.services is Some <==> payment.auth_type is ThreeDs
            &&& sale.services is Some ==> sale.services->0.settings.active
            &&& sale.language@ == "en"@
        },
        item.router_data.request.payment_method_data is None && sale_type is Ok && (
        item.router_data.connector_auth_type is BodyKey) && item.router_data.request.order_details
            is Ok && item.router_data.request.order_details->Ok_0@.len() > 0 ==> res->Err_0 == (
        ConnectorError::MissingRequiredField { field_name: "payment_method_data" }),
{
}

/// Where a sale cannot be prepared, the first fault is told, in this order: what the sale is for,
/// the keys, what is sold, what it is paid with, the currency, a method that is not offered, and
/// the places to come back to.
pub proof fn law_first_fault_of_a_sale_is_told<'a, 'b>(
    item: &'a PaymeRouterData<&'b PaymentsPreProcessingRouterData>,
    sale_type: Result<SaleType, ConnectorError>,
    product: Result<String, ConnectorError>,
    method: Result<SalePaymentMethod, ConnectorError>,
    res: Result<GenerateSaleRequest, ConnectorError>,
)
    requires
        call_ensures(
            <GenerateSaleRequest as TryFrom<
                &'a PaymeRouterData<&'b PaymentsPreProcessingRouterData>,
            >>::try_from,
            (item,),
            res,
        ),
        call_ensures(
            <SaleType as TryFrom<&'b PaymentsPreProcessingRouterData>>::try_from,
            (item.router_data,),
            sale_type,
        ),
        call_ensures(
            crate::payme::sales::get_first_product,
            (&item.router_data.request.order_details,),
            product,
        ),
        item.router_data.request.payment_method_data matches Some(by) ==> call_ensures(
            <SalePaymentMethod as TryFrom<&'b PaymentMethodData>>::try_from,
            (&by,),
            method,
        ),
        res is Err,
    ensures
        ({
            let request = item.router_data.request;
            let keyed = item.router_data.connector_auth_type is BodyKey
                || item.router_data.connector_auth_type is SignatureKey;
            let told = res->Err_0;
            if sale_type is Err {
                told == sale_type->Err_0
            } else if !keyed {
                told is FailedToObtainAuthType
            } else if product is Err {
                told == product->Err_0
            } else if request.payment_method_data is None {
                told == (ConnectorError::MissingRequiredField {
                    field_name: "payment_method_data",
                })
            } else if request.currency is Err {
                told == request.currency->Err_0
            } else if method is Err {
                told == method->Err_0
            } else if request.router_return_url is Err {
                told == request.router_return_url->Err_0
            } else {
                told == request.webhook_url->Err_0
            }
        }),
{
}

/// Where a payment cannot be asked for, the first fault is told: under a mandate the keys, what is
/// sold, the places to come back to and the mandate; of a prepared sale the card, the address and
/// the name of the customer, and the sale.
pub proof fn law_first_fault_of_a_payment_is_told<'a, 'b>(
    item: &'a PaymeRouterData<&'b PaymentsAuthorizeRouterData>,
    product: Result<String, ConnectorError>,
    mandate: Result<MandateRequest, ConnectorError>,
    pay: Result<PayRequest, ConnectorError>,
)
    requires
        call_ensures(
            crate::payme::sales::get_first_product,
            (&item.router_data.request.order_details,),
            product,
        ),
        call_ensures(
            <MandateRequest as TryFrom<
                &'a PaymeRouterData<&'b PaymentsAuthorizeRouterData>,
            >>::try_from,
            (item,),
            mandate,
        ),
        call_ensures(
            <PayRequest as TryFrom<&'b PaymentsAuthorizeRouterData>>::try_from,
            (item.router_data,),
            pay,
        ),
    ensures
        ({
            let payment = item.router_data;
            let keyed = payment.connector_auth_type is BodyKey || payment.connector_auth_type
                is SignatureKey;
            &&& mandate is Err ==> if !keyed {
                mandate->Err_0 is FailedToObtainAuthType
            } else if product is Err {
                mandate->Err_0 == product->Err_0
            } else if payment.request.router_return_url is None {
                mandate->Err_0 == (ConnectorError::MissingRequiredField {
                    field_name: "return_url",
                })
            } else if payment.request.webhook_url is Err {
                mandate->Err_0 == payment.request.webhook_url->Err_0
            } else {
                mandate->Err_0 == payment.request.connector_mandate_id->Err_0
            }
            &&& pay is Err ==> (payment.request.payment_method_data matches PaymentMethodData::Card(
                card,
            ) ==> if card.expiry_month_year is Err {
                pay->Err_0 == card.expiry_month_year->Err_0
            } else if payment.request.email is Err {
                pay->Err_0 == payment.request.email->Err_0
            } else if payment.billing.full_name is Err {
                pay->Err_0 == payment.billing.full_name->Err_0
            } else {
                pay->Err_0 == (ConnectorError::MissingConnectorRelatedTransactionID {
                    id: "payme_sale_id",
                })
            })
        }),
{
}

/// Where a payment cannot be asked for after the customer came back, the first fault is told; a
/// token of another kind is told as what it is.
pub proof fn law_first_fault_of_a_return_is_told(
    item: &PaymentsCompleteAuthorizeRouterData,
    decoded: Option<PaymeRedirectResponseData>,
    res: Result<Pay3dsRequest, ConnectorError>,
)
    requires
        call_ensures(Pay3dsRequest::try_from, (item, decoded), res),
        item.request.payment_method_data is Some,
        item.request.payment_method_data->0 is Card,
        res is Err,
    ensures
        ({
            let told = res->Err_0;
            let token = item.payment_method_token;
            if item.request.email is Err {
                told == item.request.email->Err_0
            } else if item.billing.full_name is Err {
                told == item.billing.full_name->Err_0
            } else if item.request.redirect_payload is Err {
                told == item.request.redirect_payload->Err_0
            } else if decoded is None {
                told == (ConnectorError::MissingConnectorRedirectionPayload {
                    field_name: "meta_data_jwt",
                })
            } else if item.request.connector_transaction_id is None {
                told is MissingConnectorTransactionID
            } else if token is None {
                told == (ConnectorError::MissingRequiredField {
                    field_name: "payment_method_token",
                })
            } else {
                &&& token->0 is ApplePayDecrypt ==> told == ConnectorError::NotImplemented(
                    Unimplemented::PaymentMethod {
                        payment_method: "Apple Pay",
                        flow: Some("Simplified"),
                        connector: "Payme",
                    },
                )
                &&& token->0 is PazeDecrypt ==> told == ConnectorError::NotImplemented(
                    Unimplemented::PaymentMethod {
                        payment_method: "Paze",
                        flow: None,
                        connector: "Payme",
                    },
                )
                &&& token->0 is GooglePayDecrypt ==> told == ConnectorError::NotImplemented(
                    Unimplemented::PaymentMethod {
                        payment_method: "Google Pay",
                        flow: None,
                        connector: "Payme",
                    },
                )
            }
        }),
{
}

/// Whether a sale goes on as prepared: pending, under its id, and otherwise as it was.
pub open spec fn goes_on(
    data: PaymentsPreProcessingRouterData,
    after: PaymentsPreProcessingRouterData,
    sale_id: String,
) -> bool {
    &&& after.status is Pending
    &&& after.preprocessing_id == Some(sale_id)
    &&& after == (RouterData {
        status: after.status,
        preprocessing_id: after.preprocessing_id,
        response: after.response,
        ..data
    })
    &&& after.response is Ok
    &&& after.response->Ok_0 is PreProcessingResponse
    &&& after.response->Ok_0->pre_processing_id == PreprocessingResponseId::ConnectorTransactionId(
        sale_id,
    )
    &&& after.response->Ok_0->PreProcessingResponse_connector_metadata is None
    &&& after.response->Ok_0->PreProcessingResponse_connector_response_reference_id is None
}

/// A prepared card sale goes on by itself without 3-D Secure, and over the customer with it.
pub proof fn law_prepared_card_sales_go_on(
    response: GenerateSaleResponse,
    data: PaymentsPreProcessingRouterData,
    http_code: u16,
    apple_pay_amount: String,
    res: Result<PaymentsPreProcessingRouterData, ConnectorError>,
)
    requires
        data.payment_method is Card,
        call_ensures(
            PaymentsPreProcessingRouterData::foreign_try_from,
            ((ResponseRouterData { response, data, http_code }, apple_pay_amount),),
            res,
        ),
    ensures
        res is Ok,
        data.auth_type is NoThreeDs ==> goes_on(data, res->Ok_0, response.payme_sale_id)
            && res->Ok_0.response->Ok_0->session_token is None,
        data.auth_type is ThreeDs ==> ({
            let after = res->Ok_0;
            &&& after.status is AuthenticationPending
            &&& after.preprocessing_id == Some(response.payme_sale_id)
            &&& after == (RouterData {
                status: after.status,
                preprocessing_id: after.preprocessing_id,
                response: after.response,
                ..data
            })
            &&& after.response matches Ok(answer)
            &&& answer is TransactionResponse
            &&& answer->resource_id == ResponseId::ConnectorTransactionId(response.payme_sale_id)
            &&& answer->redirection_data == Some(RedirectionData::Page(RedirectForm::Payme))
            &&& answer->mandate_reference is None
            &&& answer->TransactionResponse_connector_metadata is None
            &&& answer->network_txn_id is None
            &&& answer->TransactionResponse_connector_response_reference_id is None
            &&& answer->incremental_authorization_allowed is None
        }),
{
}

/// Any other prepared sale goes on too. By Apple Pay on the device it does with what the device
/// shows: the merchant's country and the payment's currency and amount, and with the keys and the
/// sale that it needs.
pub proof fn law_prepared_wallet_sales_go_on(
    response: GenerateSaleResponse,
    data: PaymentsPreProcessingRouterData,
    http_code: u16,
    apple_pay_amount: String,
    res: Result<PaymentsPreProcessingRouterData, ConnectorError>,
)
    requires
        data.payment_method !is Card,
        call_ensures(
            PaymentsPreProcessingRouterData::foreign_try_from,
            ((ResponseRouterData { response, data, http_code }, apple_pay_amount),),
            res,
        ),
    ensures
        ({
            let on_device = data.request.payment_method_data is Some
                && data.request.payment_method_data->0 is Wallet
                && data.request.payment_method_data->0->Wallet_0 is ApplePayThirdPartySdk;
            let auth = data.connector_auth_type;
            &&& res is Ok <==> data.request.currency is Ok && (auth is BodyKey || auth
                is SignatureKey) && (on_device ==> data.billing.country is Ok)
            &&& res is Err ==> if data.request.currency is Err {
                res->Err_0 == data.request.currency->Err_0
            } else if !(auth is BodyKey || auth is SignatureKey) {
                res->Err_0 is FailedToObtainAuthType
            } else {
                res->Err_0 == data.billing.country->Err_0
            }
            &&& res is Ok ==> goes_on(data, res->Ok_0, response.payme_sale_id)
            &&& res is Ok ==> (res->Ok_0.response->Ok_0->session_token is Some <==> on_device)
            &&& res is Ok && on_device ==> {
                let token = res->Ok_0.response->Ok_0->session_token->0;
                &&& token.no_session_response
                &&& token.delayed_session_token
                &&& token.next_action is Sync
                &&& token.connector@ == "payme"@
                &&& token.connector_reference_id == Some(response.payme_sale_id)
                &&& auth is BodyKey ==> token.connector_sdk_public_key == Some(
                    auth->BodyKey_key1.inner_secret,
                ) && token.connector_merchant_id is None
                &&& auth is SignatureKey ==> token.connector_sdk_public_key == Some(
                    auth->SignatureKey_key1.inner_secret,
                ) && token.connector_merchant_id == Some(auth->SignatureKey_api_secret.inner_secret)
                &&& token.payment_request_data is Some
                &&& token.payment_request_data->0.country_code == data.billing.country->Ok_0
                &&& token.payment_request_data->0.currency_code == data.request.currency->Ok_0
                &&& token.payment_request_data->0.label@ == "Apple Pay"@
                &&& token.payment_request_data->0.amount == apple_pay_amount
            }
        }),
{
}

/// A buyer is stored with the card that was given, each of its fields under its own name, for the
/// merchant; only cards can be. The key that came stands for the card from then on.
pub proof fn law_stored_buyer_is_the_card<'a, T>(
    item: &'a TokenizationRouterData,
    response: CaptureBuyerResponse,
    data: RouterData<T, PaymentsResponseData>,
    http_code: u16,
    asked: Result<CaptureBuyerRequest, ConnectorError>,
    res: Result<RouterData<T, PaymentsResponseData>, ConnectorError>,
)
    requires
        call_ensures(
            <CaptureBuyerRequest as TryFrom<&'a TokenizationRouterData>>::try_from,
            (item,),
            asked,
        ),
        call_ensures(
            <RouterData<T, PaymentsResponseData> as TryFrom<
                ResponseRouterData<CaptureBuyerResponse, T, PaymentsResponseData>,
            >>::try_from,
            (ResponseRouterData { response, data, http_code },),
            res,
        ),
    ensures
        item.request.payment_method_data !is Card ==> asked is Err && asked->Err_0
            == ConnectorError::NotImplemented(Unimplemented::Feature("Tokenize Flow")),
        item.request.payment_method_data matches PaymentMethodData::Card(card) ==> {
            &&& asked is Ok <==> (item.connector_auth_type is BodyKey || item.connector_auth_type
                is SignatureKey) && card.expiry_month_year is Ok
            &&& asked is Err ==> if item.connector_auth_type is BodyKey || item.connector_auth_type
                is SignatureKey {
                asked->Err_0 == card.expiry_month_year->Err_0
            } else {
                asked->Err_0 is FailedToObtainAuthType
            }
            &&& asked is Ok ==> {
                &&& is_seller(item.connector_auth_type, asked->Ok_0.seller_payme_id)
                &&& asked->Ok_0.card.credit_card_number == card.card_number
                &&& asked->Ok_0.card.credit_card_cvv == card.card_cvc
                &&& asked->Ok_0.card.credit_card_exp == card.expiry_month_year->Ok_0
            }
        },
        res is Ok,
        res->Ok_0 == (RouterData {
            payment_method_token: res->Ok_0.payment_method_token,
            response: res->Ok_0.response,
            ..data
        }),
        res->Ok_0.payment_method_token == Some(PaymentMethodToken::Token(response.buyer_key)),
        res->Ok_0.response is Ok,
        res->Ok_0.response->Ok_0 is TokenizationResponse,
        res->Ok_0.response->Ok_0->token == response.buyer_key.inner_secret,
{
}

/// A payment under a mandate is asked for with its amount and currency, under its id, for the
/// merchant and with the key that the mandate stands for.
pub proof fn law_mandate_payment_is_the_wanted_one<'a, 'b>(
    item: &'a PaymeRouterData<&'b PaymentsAuthorizeRouterData>,
    res: Result<MandateRequest, ConnectorError>,
)
    requires
        call_ensures(
            <MandateRequest as TryFrom<
                &'a PaymeRouterData<&'b PaymentsAuthorizeRouterData>,
            >>::try_from,
            (item,),
            res,
        ),
    ensures
        ({
            let payment = item.router_data;
            &&& res is Ok <==> (payment.connector_auth_type is BodyKey
                || payment.connector_auth_type is SignatureKey) && payment.request.order_details
                is Ok && payment.request.order_details->Ok_0@.len() > 0
                && payment.request.router_return_url is Some && payment.request.webhook_url is Ok
                && payment.request.connector_mandate_id is Ok
            &&& res matches Ok(asked) ==> {
                &&& asked.sale_price == item.amount
                &&& asked.currency == payment.request.currency
                &&& asked.transaction_id == payment.payment_id
                &&& asked.product_name == payment.request.order_details->Ok_0@[0].product_name
                &&& payment.request.router_return_url == Some(asked.sale_return_url)
                &&& asked.sale_callback_url == payment.request.webhook_url->Ok_0
                &&& asked.buyer_key.inner_secret == payment.request.connector_mandate_id->Ok_0
                &&& is_seller(payment.connector_auth_type, asked.seller_payme_id)
                &&& asked.language@ == "en"@
            }
        }),
{
}

/// A prepared sale is paid with the card of the customer, under the customer's name and address.
pub proof fn law_paid_sale_is_the_prepared_one<'a>(
    item: &'a PaymentsAuthorizeRouterData,
    res: Result<PayRequest, ConnectorError>,
)
    requires
        call_ensures(
            <PayRequest as TryFrom<&'a PaymentsAuthorizeRouterData>>::try_from,
            (item,),
            res,
        ),
    ensures
        item.request.payment_method_data !is Card ==> res is Err && res->Err_0
            == ConnectorError::NotImplemented(
            Unimplemented::SelectedPaymentMethod { connector: "payme" },
        ),
        item.request.payment_method_data matches PaymentMethodData::Card(card) ==> {
            &&& res is Ok <==> card.expiry_month_year is Ok && item.request.email is Ok
                && item.billing.full_name is Ok && item.preprocessing_id is Some
            &&& res matches Ok(asked) ==> {
                &&& asked.card.credit_card_number == card.card_number
                &&& asked.card.credit_card_cvv == card.card_cvc
                &&& asked.card.credit_card_exp == card.expiry_month_year->Ok_0
                &&& asked.buyer_email == item.request.email->Ok_0
                &&& asked.buyer_name == item.billing.full_name->Ok_0
                &&& item.preprocessing_id == Some(asked.payme_sale_id)
                &&& asked.language@ == "en"@
            }
            &&& card.expiry_month_year is Ok && item.request.email is Ok && item.billing.full_name
                is Ok && item.preprocessing_id is None ==> res->Err_0 == (
            ConnectorError::MissingConnectorRelatedTransactionID { id: "payme_sale_id" })
        },
{
}

/// A payment is made under its mandate where it has one, and as the prepared sale otherwise.
pub proof fn law_mandates_are_used<'a, 'b>(
    item: &'a PaymeRouterData<&'b PaymentsAuthorizeRouterData>,
    mandate: Result<MandateRequest, ConnectorError>,
    pay: Result<PayRequest, ConnectorError>,
    res: Result<PaymePaymentRequest, ConnectorError>,
)
    requires
        call_ensures(
            <MandateRequest as TryFrom<
                &'a PaymeRouterData<&'b PaymentsAuthorizeRouterData>,
            >>::try_from,
            (item,),
            mandate,
        ),
        call_ensures(
            <PayRequest as TryFrom<&'b PaymentsAuthorizeRouterData>>::try_from,
            (item.router_data,),
            pay,
        ),
        call_ensures(
            <PaymePaymentRequest as TryFrom<
                &'a PaymeRouterData<&'b PaymentsAuthorizeRouterData>,
            >>::try_from,
            (item,),
            res,
        ),
    ensures
        item.router_data.request.has_mandate ==> {
            &&& res is Ok <==> mandate is Ok
            &&& res is Err ==> res->Err_0 == mandate->Err_0
            &&& res is Ok ==> {
                &&& res->Ok_0 is MandateRequest
                &&& res->Ok_0->MandateRequest_0.sale_price == item.amount
                &&& res->Ok_0->MandateRequest_0.currency == mandate->Ok_0.currency
                &&& res->Ok_0->MandateRequest_0.transaction_id == mandate->Ok_0.transaction_id
                &&& res->Ok_0->MandateRequest_0.buyer_key == mandate->Ok_0.buyer_key
                &&& res->Ok_0->MandateRequest_0.seller_payme_id == mandate->Ok_0.seller_payme_id
                &&& res->Ok_0->MandateRequest_0.product_name == mandate->Ok_0.product_name
                &&& res->Ok_0->MandateRequest_0.sale_return_url == mandate->Ok_0.sale_return_url
                &&& res->Ok_0->MandateRequest_0.sale_callback_url
                    == mandate->Ok_0.sale_callback_url
                &&& res->Ok_0->MandateRequest_0.language@ == "en"@
            }
        },
        !item.router_data.request.has_mandate ==> {
            &&& res is Ok <==> pay is Ok
            &&& res is Err ==> res->Err_0 == pay->Err_0
            &&& res is Ok ==> {
                &&& res->Ok_0 is PayRequest
                &&& res->Ok_0->PayRequest_0.payme_sale_id == pay->Ok_0.payme_sale_id
                &&& res->Ok_0->PayRequest_0.card == pay->Ok_0.card
                &&& res->Ok_0->PayRequest_0.buyer_email == pay->Ok_0.buyer_email
                &&& res->Ok_0->PayRequest_0.buyer_name == pay->Ok_0.buyer_name
                &&& res->Ok_0->PayRequest_0.language@ == "en"@
            }
        },
{
}

/// After the customer came back a sale is paid with the stored buyer, under the customer's name
/// and address, and with what the customer came back with.
pub proof fn law_returned_payment_is_the_wanted_one(
    item: &PaymentsCompleteAuthorizeRouterData,
    decoded: Option<PaymeRedirectResponseData>,
    res: Result<Pay3dsRequest, ConnectorError>,
)
    requires
        call_ensures(Pay3dsRequest::try_from, (item, decoded), res),
    ensures
        res is Ok <==> {
            &&& item.request.payment_method_data is Some
            &&& item.request.payment_method_data->0 is Card
            &&& item.request.email is Ok
            &&& item.billing.full_name is Ok
            &&& item.request.redirect_payload is Ok
            &&& decoded is Some
            &&& item.request.connector_transaction_id is Some
            &&& item.payment_method_token is Some
            &&& item.payment_method_token->0 is Token
        },
        res matches Ok(asked) ==> {
            &&& asked.buyer_email == item.request.email->Ok_0
            &&& asked.buyer_name == item.billing.full_name->Ok_0
            &&& asked.buyer_key == item.payment_method_token->0->Token_0
            &&& item.request.connector_transaction_id == Some(asked.payme_sale_id)
            &&& asked.meta_data_jwt.inner_secret == decoded->0.meta_data
        },
        !(item.request.payment_method_data is Some && item.request.payment_method_data->0 is Card)
            ==> res->Err_0 == ConnectorError::NotImplemented(
            Unimplemented::Feature("Tokenize Flow"),
        ),
        item.request.payment_method_data is Some && item.request.payment_method_data->0 is Card
            && item.request.email is Ok && item.billing.full_name is Ok
            && item.request.redirect_payload is Ok ==> {
            &&& decoded is None ==> res->Err_0 == (
            ConnectorError::MissingConnectorRedirectionPayload { field_name: "meta_data_jwt" })
            &&& decoded is Some && item.request.connector_transaction_id is None ==> res->Err_0
                is MissingConnectorTransactionID
        },
{
}

/// The state of a sale is asked for by its id, for the merchant. A sale is captured whole, by its
/// id and with its amount, and not in part. It is cancelled by its id, in its currency, for the
/// merchant.
pub proof fn law_sales_are_named_by_their_ids<'a, 'b>(
    sync: &'a PaymentsSyncRouterData,
    capture: &'a PaymeRouterData<&'b PaymentsCaptureRouterData>,
    cancel: &'a PaymeRouterData<&'b PaymentsCancelRouterData>,
    query: Result<PaymeQuerySaleRequest, ConnectorError>,
    captured: Result<PaymentCaptureRequest, ConnectorError>,
    voided: Result<PaymeVoidRequest, ConnectorError>,
)
    requires
        call_ensures(
            <PaymeQuerySaleRequest as TryFrom<&'a PaymentsSyncRouterData>>::try_from,
            (sync,),
            query,
        ),
        call_ensures(
            <PaymentCaptureRequest as TryFrom<
                &'a PaymeRouterData<&'b PaymentsCaptureRouterData>,
            >>::try_from,
            (capture,),
            captured,
        ),
        call_ensures(
            <PaymeVoidRequest as TryFrom<
                &'a PaymeRouterData<&'b PaymentsCancelRouterData>,
            >>::try_from,
            (cancel,),
            voided,
        ),
    ensures
        query is Ok <==> (sync.connector_auth_type is BodyKey || sync.connector_auth_type
            is SignatureKey) && sync.request.connector_transaction_id is Ok,
        query is Ok ==> query->Ok_0.sale_payme_id == sync.request.connector_transaction_id->Ok_0
            && is_seller(sync.connector_auth_type, query->Ok_0.seller_payme_id),
        captured is Ok <==> capture.router_data.request.minor_amount_to_capture
            == capture.router_data.request.minor_payment_amount,
        captured is Ok ==> captured->Ok_0.payme_sale_id
            == capture.router_data.request.connector_transaction_id && captured->Ok_0.sale_price
            == capture.amount,
        captured is Err ==> captured->Err_0 == (ConnectorError::NotSupported {
            message: "Partial Capture",
            connector: "Payme",
        }),
        voided is Ok <==> (cancel.router_data.connector_auth_type is BodyKey
            || cancel.router_data.connector_auth_type is SignatureKey)
            && cancel.router_data.request.currency is Ok,
        query is Err ==> if sync.connector_auth_type is BodyKey || sync.connector_auth_type
            is SignatureKey {
            query->Err_0 == sync.request.connector_transaction_id->Err_0
        } else {
            query->Err_0 is FailedToObtainAuthType
        },
        voided is Err ==> if cancel.router_data.connector_auth_type is BodyKey
            || cancel.router_data.connector_auth_type is SignatureKey {
            voided->Err_0 == cancel.router_data.request.currency->Err_0
        } else {
            voided->Err_0 is FailedToObtainAuthType
        },
        voided is Ok ==> {
            &&& voided->Ok_0.payme_sale_id == cancel.router_data.request.connector_transaction_id
            &&& voided->Ok_0.sale_currency == cancel.router_data.request.currency->Ok_0
            &&& is_seller(cancel.router_data.connector_auth_type, voided->Ok_0.seller_payme_id)
            &&& voided->Ok_0.language@ == "en"@
        },
{
}

/// How a sale's state is read: one that was begun is under way, money taken is charged, money that
/// went back is refunded, and a failed one has failed.
pub open spec fn reads_as(status: SaleStatus, res: AttemptStatus) -> bool {
    &&& res is Authorizing <==> status is Initial
    &&& res is Charged <==> status is Completed
    &&& res is Authorized <==> status is Authorized
    &&& res is Voided <==> status is Voided || status is PartialVoid
    &&& res is AutoRefunded <==> status is Refunded || status is PartialRefund || status is Chargeback
    &&& res is Failure <==> status is Failed
}

/// A sale's state is read as what it is, and of a refund it tells success where money went back,
/// failure where it failed, and otherwise nothing.
pub proof fn law_sale_states_are_read(
    status: SaleStatus,
    attempt: AttemptStatus,
    refund: Result<RefundStatus, ConnectorError>,
)
    requires
        call_ensures(<AttemptStatus as From<SaleStatus>>::from, (status,), attempt),
        call_ensures(<RefundStatus as TryFrom<SaleStatus>>::try_from, (status,), refund),
    ensures
        reads_as(status, attempt),
        refund is Ok && refund->Ok_0 is Success <==> status is Refunded || status is PartialRefund,
        refund is Ok && refund->Ok_0 is Failure <==> status is Failed,
        refund is Err <==> !(status is Refunded || status is PartialRefund || status is Failed),
        refund is Err ==> refund->Err_0 is ResponseHandlingFailed,
{
}

/// Which states count as failures, of payments and of refunds.
pub proof fn law_failures_are_told(
    attempt: AttemptStatus,
    refund: RefundStatus,
    payment_failed: bool,
    refund_failed: bool,
)
    requires
        call_ensures(is_payment_failure, (attempt,), payment_failed),
        call_ensures(is_refund_failure, (refund,), refund_failed),
    ensures
        payment_failed <==> attempt is Failure || attempt is AuthenticationFailed || attempt
            is AuthorizationFailed || attempt is CaptureFailed || attempt is VoidFailed,
        refund_failed <==> refund is Failure || refund is TransactionFailure,
{
}

/// Whether an error tells the number that Payme gave it, or that it gave none.
pub open spec fn tells_code(error: ErrorResponse, code: Option<u32>) -> bool {
    &&& code matches Some(number) ==> error.code@ == crate::text::number_text(number as nat)
    &&& code is None ==> error.code@ == "No error code"@
}

/// A paid sale, or a report of one, stands where it says. A failed one is told as an error in the
/// words of Payme; any other as its transaction, with the place that the customer has to go to and
/// with the key for later payments. All else of the payment stays.
pub proof fn law_paid_sale_is_told<T>(
    response: PaymePaySaleResponse,
    data: RouterData<T, PaymentsResponseData>,
    http_code: u16,
    res: Result<RouterData<T, PaymentsResponseData>, ConnectorError>,
    by_report: Result<RouterData<T, PaymentsResponseData>, ConnectorError>,
)
    requires
        call_ensures(
            <RouterData<T, PaymentsResponseData> as TryFrom<
                ResponseRouterData<PaymePaySaleResponse, T, PaymentsResponseData>,
            >>::try_from,
            (ResponseRouterData { response, data, http_code },),
            res,
        ),
        call_ensures(
            <RouterData<T, PaymentsResponseData> as TryFrom<
                ResponseRouterData<PaymePaymentsResponse, T, PaymentsResponseData>,
            >>::try_from,
            (
                ResponseRouterData {
                    response: PaymePaymentsResponse::PaymePaySaleResponse(response),
                    data,
                    http_code,
                },
            ),
            by_report,
        ),
    ensures
        res is Ok && tells_sale(data, res->Ok_0, response, http_code),
        by_report is Ok && tells_sale(data, by_report->Ok_0, response, http_code),
{
}

/// Whether data tells of a sale what Payme told of it.
pub open spec fn tells_sale<T>(
    data: RouterData<T, PaymentsResponseData>,
    after: RouterData<T, PaymentsResponseData>,
    response: PaymePaySaleResponse,
    http_code: u16,
) -> bool {
    &&& reads_as(response.sale_status, after.status)
    &&& after == (RouterData { status: after.status, response: after.response, ..data })
    &&& after.response is Err <==> response.sale_status is Failed
    &&& after.response matches Err(error) ==> {
        &&& tells_code(error, response.status_error_code)
        &&& response.status_error_details matches Some(words) ==> error.message@ == words@
            && error.reason is Some && error.reason->0@ == words@
        &&& response.status_error_details is None ==> error.message@ == "No error message"@
            && error.reason is None
        &&& error.status_code == http_code
        &&& error.connector_transaction_id is Some
        &&& error.connector_transaction_id->0@ == response.payme_sale_id@
        &&& error.attempt_status is None
    }
    &&& after.response matches Ok(answer) ==> {
        &&& answer is TransactionResponse
        &&& answer->resource_id == ResponseId::ConnectorTransactionId(response.payme_sale_id)
        &&& answer->mandate_reference is Some <==> response.buyer_key is Some
        &&& response.buyer_key matches Some(key) ==> {
            &&& answer->mandate_reference->0.connector_mandate_id == Some(key.inner_secret)
            &&& answer->mandate_reference->0.payment_method_id is None
            &&& answer->mandate_reference->0.connector_mandate_request_reference_id is None
        }
        &&& answer->redirection_data is Some <==> response.sale_3ds == Some(true)
            && response.redirect_url is Some
        &&& answer->redirection_data is Some ==> {
            &&& answer->redirection_data->0 matches RedirectionData::Page(
                RedirectForm::Form { endpoint, method, form_fields },
            )
            &&& endpoint == response.redirect_url->0.text
            &&& method is Get
            &&& form_fields@.len() == 0
        }
        &&& answer->TransactionResponse_connector_metadata is None
        &&& answer->network_txn_id is None
        &&& answer->TransactionResponse_connector_response_reference_id is None
        &&& answer->incremental_authorization_allowed is None
    }
}

/// Whether data tells of a sale what its state told.
pub open spec fn tells_state<T>(
    data: RouterData<T, PaymentsResponseData>,
    after: RouterData<T, PaymentsResponseData>,
    sale: SaleQuery,
    http_code: u16,
) -> bool {
    &&& reads_as(sale.sale_status, after.status)
    &&& after == (RouterData { status: after.status, response: after.response, ..data })
    &&& after.response is Err <==> sale.sale_status is Failed
    &&& after.response matches Err(error) ==> {
        &&& sale.sale_error_code matches Some(code) ==> error.code@ == code@
        &&& sale.sale_error_code is None ==> error.code@ == "No error code"@
        &&& sale.sale_error_text matches Some(words) ==> error.message@ == words@ && error.reason
            is Some && error.reason->0@ == words@
        &&& sale.sale_error_text is None ==> error.message@ == "No error message"@ && error.reason
            is None
        &&& error.status_code == http_code
        &&& error.connector_transaction_id is Some
        &&& error.connector_transaction_id->0@ == sale.sale_payme_id@
    }
    &&& after.response matches Ok(answer) ==> {
        &&& answer is TransactionResponse
        &&& answer->resource_id == ResponseId::ConnectorTransactionId(sale.sale_payme_id)
        &&& answer->redirection_data is None
        &&& answer->mandate_reference is None
        &&& answer->TransactionResponse_connector_metadata is None
        &&& answer->network_txn_id is None
        &&& answer->TransactionResponse_connector_response_reference_id is None
        &&& answer->incremental_authorization_allowed is None
    }
}

/// A payment whose state was asked for stands where its sale says. An answer that tells of no sale
/// cannot be used.
pub proof fn law_asked_sale_is_told<T>(
    response: SaleQueryResponse,
    data: RouterData<T, PaymentsResponseData>,
    http_code: u16,
    res: Result<RouterData<T, PaymentsResponseData>, ConnectorError>,
    of_either: Result<RouterData<T, PaymentsResponseData>, ConnectorError>,
)
    requires
        call_ensures(
            <RouterData<T, PaymentsResponseData> as TryFrom<
                ResponseRouterData<SaleQueryResponse, T, PaymentsResponseData>,
            >>::try_from,
            (ResponseRouterData { response, data, http_code },),
            res,
        ),
        call_ensures(
            <RouterData<T, PaymentsResponseData> as TryFrom<
                ResponseRouterData<PaymePaymentsResponse, T, PaymentsResponseData>,
            >>::try_from,
            (
                ResponseRouterData {
                    response: PaymePaymentsResponse::SaleQueryResponse(response),
                    data,
                    http_code,
                },
            ),
            of_either,
        ),
    ensures
        res is Ok <==> response.items@.len() > 0,
        res is Err ==> res->Err_0 is ResponseHandlingFailed,
        res is Ok ==> tells_state(data, res->Ok_0, response.items@[0], http_code),
        of_either is Ok <==> response.items@.len() > 0,
        of_either is Err ==> of_either->Err_0 is ResponseHandlingFailed,
        of_either is Ok ==> tells_state(data, of_either->Ok_0, response.items@[0], http_code),
{
}

/// A cancelled payment stands where its sale says. A failed cancellation is told as an error with
/// the number that Payme gave; the answer tells no id of the sale.
pub proof fn law_cancelled_sale_is_told(
    response: PaymeVoidResponse,
    data: PaymentsCancelRouterData,
    http_code: u16,
    res: Result<PaymentsCancelRouterData, ConnectorError>,
)
    requires
        call_ensures(
            <PaymentsCancelRouterData as TryFrom<
                ResponseRouterData<PaymeVoidResponse, PaymentsCancelData, PaymentsResponseData>,
            >>::try_from,
            (ResponseRouterData { response, data, http_code },),
            res,
        ),
    ensures
        res is Ok,
        ({
            let after = res->Ok_0;
            &&& reads_as(response.sale_status, after.status)
            &&& after == (RouterData { status: after.status, response: after.response, ..data })
            &&& after.response is Err <==> response.sale_status is Failed
            &&& after.response matches Err(error) ==> tells_code_alone(
                error,
                response.status_error_code,
                http_code,
                response.payme_transaction_id,
            )
            &&& after.response matches Ok(answer) ==> {
                &&& answer is TransactionResponse
                &&& answer->resource_id is NoResponseId
                &&& answer->redirection_data is None
                &&& answer->mandate_reference is None
                &&& answer->TransactionResponse_connector_metadata is None
                &&& answer->network_txn_id is None
                &&& answer->TransactionResponse_connector_response_reference_id is None
                &&& answer->incremental_authorization_allowed is None
            }
        }),
{
}

/// Whether an error tells the number that Payme gave, as its code, its message and its reason.
pub open spec fn tells_code_alone(
    error: ErrorResponse,
    code: Option<u32>,
    http_code: u16,
    transaction_id: Option<String>,
) -> bool {
    &&& tells_code(error, code)
    &&& code matches Some(number) ==> error.message@ == crate::text::number_text(number as nat)
        && error.reason is Some && error.reason->0@ == crate::text::number_text(number as nat)
    &&& code is None ==> error.message@ == "No error message"@ && error.reason is None
    &&& error.status_code == http_code
    &&& error.connector_transaction_id is Some <==> transaction_id is Some
    &&& transaction_id is Some ==> error.connector_transaction_id->0@ == transaction_id->0@
    &&& error.attempt_status is None
}

/// A refund is asked for with its amount, of the sale, for the merchant; its state is asked for by
/// its id at Payme.
pub proof fn law_asked_refund_is_the_wanted_one<'a, 'b>(
    item: &'a PaymeRouterData<&'b RefundsRouterData>,
    sync: &'a RefundsRouterData,
    asked: Result<PaymeRefundRequest, ConnectorError>,
    query: Result<PaymeQueryTransactionRequest, ConnectorError>,
)
    requires
        call_ensures(
            <PaymeRefundRequest as TryFrom<&'a PaymeRouterData<&'b RefundsRouterData>>>::try_from,
            (item,),
            asked,
        ),
        call_ensures(
            <PaymeQueryTransactionRequest as TryFrom<&'a RefundsRouterData>>::try_from,
            (sync,),
            query,
        ),
    ensures
        asked is Ok <==> item.router_data.connector_auth_type is BodyKey
            || item.router_data.connector_auth_type is SignatureKey,
        asked is Err ==> asked->Err_0 is FailedToObtainAuthType,
        asked is Ok ==> {
            &&& asked->Ok_0.sale_refund_amount == item.amount
            &&& asked->Ok_0.payme_sale_id == item.router_data.request.connector_transaction_id
            &&& is_seller(item.router_data.connector_auth_type, asked->Ok_0.seller_payme_id)
            &&& asked->Ok_0.language@ == "en"@
        },
        query is Ok <==> (sync.connector_auth_type is BodyKey || sync.connector_auth_type
            is SignatureKey) && sync.request.connector_refund_id is Some,
        query is Ok ==> sync.request.connector_refund_id == Some(query->Ok_0.payme_transaction_id)
            && is_seller(sync.connector_auth_type, query->Ok_0.seller_payme_id),
        query is Err ==> if sync.connector_auth_type is BodyKey || sync.connector_auth_type
            is SignatureKey {
            query->Err_0 is MissingConnectorRefundID
        } else {
            query->Err_0 is FailedToObtainAuthType
        },
{
}

/// A refund succeeded where its sale was refunded, under the id of its transaction, and failed
/// where its sale failed, with the number that Payme gave. All else stays, and any other state, or
/// a missing id, cannot be used.
pub proof fn law_refund_is_told(
    response: PaymeRefundResponse,
    data: RefundsRouterData,
    http_code: u16,
    res: Result<RefundsRouterData, ConnectorError>,
)
    requires
        call_ensures(
            <RefundsRouterData as TryFrom<
                ResponseRouterData<PaymeRefundResponse, RefundsData, RefundsResponseData>,
            >>::try_from,
            (ResponseRouterData { response, data, http_code },),
            res,
        ),
    ensures
        ({
            let refunded = response.sale_status is Refunded || response.sale_status
                is PartialRefund;
            let failed = response.sale_status is Failed;
            &&& res is Ok <==> failed || refunded && response.payme_transaction_id is Some
            &&& res is Err ==> if refunded {
                res->Err_0 is MissingConnectorRefundID
            } else {
                res->Err_0 is ResponseHandlingFailed
            }
            &&& res is Ok ==> res->Ok_0 == (RouterData { response: res->Ok_0.response, ..data })
            &&& res is Ok ==> (res->Ok_0.response is Ok <==> refunded)
            &&& res is Ok && refunded ==> res->Ok_0.response->Ok_0.refund_status is Success
                && response.payme_transaction_id == Some(
                res->Ok_0.response->Ok_0.connector_refund_id,
            )
            &&& res is Ok && failed ==> tells_code_alone(
                res->Ok_0.response->Err_0,
                response.status_error_code,
                http_code,
                response.payme_transaction_id,
            )
        }),
{
}

/// The state of a refund is that of its transaction, the first one told of.
pub proof fn law_refund_state_is_told<T>(
    response: PaymeQueryTransactionResponse,
    data: RouterData<T, RefundsResponseData>,
    http_code: u16,
    res: Result<RouterData<T, RefundsResponseData>, ConnectorError>,
)
    requires
        call_ensures(
            <RouterData<T, RefundsResponseData> as TryFrom<
                ResponseRouterData<PaymeQueryTransactionResponse, T, RefundsResponseData>,
            >>::try_from,
            (ResponseRouterData { response, data, http_code },),
            res,
        ),
    ensures
        response.items@.len() == 0 ==> res is Err,
        res is Err ==> res->Err_0 is ResponseHandlingFailed,
        response.items@.len() > 0 ==> ({
            let told = response.items@[0];
            let refunded = told.sale_status is Refunded || told.sale_status is PartialRefund;
            let failed = told.sale_status is Failed;
            &&& res is Ok <==> failed || refunded
            &&& res is Ok ==> res->Ok_0 == (RouterData { response: res->Ok_0.response, ..data })
            &&& res is Ok ==> (res->Ok_0.response is Ok <==> refunded)
            &&& res is Ok && refunded ==> res->Ok_0.response->Ok_0.refund_status is Success
                && res->Ok_0.response->Ok_0.connector_refund_id == told.payme_transaction_id
            &&& res is Ok && failed ==> {
                let error = res->Ok_0.response->Err_0;
                &&& error.code@ == "No error code"@
                &&& error.message@ == "No error code"@
                &&& error.reason is None
                &&& error.status_code == http_code
                &&& error.connector_transaction_id is Some
                &&& error.connector_transaction_id->0@ == told.payme_transaction_id@
            }
        }),
{
}

/// A report is read as the sale, or the transaction, that it is about, each thing under its own
/// name.
pub proof fn law_report_is_read(
    value: WebhookEventDataResource,
    sale: PaymePaySaleResponse,
    transaction: PaymeQueryTransactionResponse,
)
    requires
        call_ensures(
            <PaymePaySaleResponse as From<WebhookEventDataResource>>::from,
            (value,),
            sale,
        ),
        call_ensures(
            <PaymeQueryTransactionResponse as From<WebhookEventDataResource>>::from,
            (value,),
            transaction,
        ),
    ensures
        sale.sale_status == value.sale_status,
        sale.payme_sale_id == value.payme_sale_id,
        sale.payme_transaction_id == Some(value.payme_transaction_id),
        sale.buyer_key == value.buyer_key,
        sale.status_error_code == value.status_error_code,
        sale.status_error_details == value.status_error_details,
        sale.sale_3ds is None,
        sale.redirect_url is None,
        transaction.items@.len() == 1,
        transaction.items@[0].sale_status == value.sale_status,
        transaction.items@[0].payme_transaction_id == value.payme_transaction_id,
{
}

/// What a report of Payme means for the switch, each meaning for exactly one kind.
pub proof fn law_reports_are_understood(value: NotifyType, event: IncomingWebhookEvent)
    requires
        call_ensures(<IncomingWebhookEvent as From<NotifyType>>::from, (value,), event),
    ensures
        event is PaymentIntentSuccess <==> value is SaleComplete,
        event is PaymentIntentFailure <==> value is SaleFailure,
        event is RefundSuccess <==> value is Refund,
        event is DisputeOpened <==> value is SaleChargeback,
        event is DisputeWon <==> value is SaleChargebackRefund,
        event is EventNotSupported <==> value is SaleAuthorized,
{
}

} // verus!
