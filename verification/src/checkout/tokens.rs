//! Wallet tokens at Checkout.
use vstd::prelude::*;
use crate::errors::{ConnectorError, Unimplemented};
use crate::payment_data::{PaymentMethodData, WalletData};
use crate::router_data::{PaymentsResponseData, ResponseRouterData, RouterData, TokenizationRouterData};
use crate::secret::Secret;

verus! {

/// A Google Pay token.
pub struct CheckoutGooglePayData {
    pub protocol_version: Secret<String>,
    pub signature: Secret<String>,
    pub signed_message: Secret<String>,
}

/// An Apple Pay token.
pub struct CheckoutApplePayData {
    pub version: Secret<String>,
    pub data: Secret<String>,
    pub signature: Secret<String>,
    pub header: CheckoutApplePayHeader,
}

/// The header of an Apple Pay token.
pub struct CheckoutApplePayHeader {
    pub ephemeral_public_key: Secret<String>,
    pub public_key_hash: Secret<String>,
    pub transaction_id: Secret<String>,
}

/// A request for a token that stands for a wallet.
pub enum TokenRequest {
    Googlepay(CheckoutGooglePayData),
    Applepay(CheckoutApplePayData),
}

/// A request for a token that stands for a decrypted wallet.
pub enum PreDecryptedTokenRequest {
    Applepay(Box<CheckoutApplePayData>),
}

/// The format that the token of a wallet is decoded from.
#[derive(Clone, Copy, Debug, PartialEq, Eq, Structural)]
pub enum WalletTokenFormat {
    GooglePay,
    ApplePay,
}

/// The name of the wallet whose token is decoded.
pub open spec fn wallet_name(format: WalletTokenFormat) -> Seq<char> {
    match format {
        WalletTokenFormat::GooglePay => "Google Pay"@,
        WalletTokenFormat::ApplePay => "Apple Pay"@,
    }
}

impl WalletTokenFormat {
    /// The name of the wallet whose token is decoded.
    pub fn wallet_name(&self) -> (res: &'static str)
        ensures
            res@ == wallet_name(*self),
    {
        match self {
            WalletTokenFormat::GooglePay => "Google Pay",
            WalletTokenFormat::ApplePay => "Apple Pay",
        }
    }
}

/// The error for a payment method that Checkout does not offer.
pub open spec fn not_offered() -> ConnectorError {
    ConnectorError::NotImplemented(Unimplemented::SelectedPaymentMethod { connector: "checkout" })
}

/// The format that the token of a payment method is decoded from.
pub open spec fn token_format(payment_method_data: PaymentMethodData) -> Result<
    WalletTokenFormat,
    ConnectorError,
> {
    match payment_method_data {
        PaymentMethodData::Wallet(WalletData::GooglePay) => Ok(WalletTokenFormat::GooglePay),
        PaymentMethodData::Wallet(WalletData::ApplePay) => Ok(WalletTokenFormat::ApplePay),
        _ => Err(not_offered()),
    }
}

/// A wallet token after decoding.
pub enum WalletToken {
    GooglePay(CheckoutGooglePayData),
    ApplePay(CheckoutApplePayData),
}

impl WalletToken {
    /// The format that the token was decoded from.
    pub open spec fn format(self) -> WalletTokenFormat {
        match self {
            WalletToken::GooglePay(_) => WalletTokenFormat::GooglePay,
            WalletToken::ApplePay(_) => WalletTokenFormat::ApplePay,
        }
    }
}

impl TokenRequest {
    /// The format that the wallet's token has to be decoded from.
    pub fn token_format(item: &TokenizationRouterData) -> (res: Result<
        WalletTokenFormat,
        ConnectorError,
    >)
        ensures
            res == token_format(item.request.payment_method_data),
    {
        match &item.request.payment_method_data {
            PaymentMethodData::Wallet(wallet_data) => match wallet_data {
                WalletData::GooglePay => Ok(WalletTokenFormat::GooglePay),
                WalletData::ApplePay => Ok(WalletTokenFormat::ApplePay),
                WalletData::AliPayQr
                | WalletData::AliPayRedirect
                | WalletData::AliPayHkRedirect
                | WalletData::AmazonPayRedirect
                | WalletData::Paysera
                | WalletData::Skrill
                | WalletData::BluecodeRedirect
                | WalletData::MomoRedirect
                | WalletData::KakaoPayRedirect
                | WalletData::GoPayRedirect
                | WalletData::GcashRedirect
                | WalletData::ApplePayRedirect
                | WalletData::ApplePayThirdPartySdk
                | WalletData::DanaRedirect
                | WalletData::GooglePayRedirect
                | WalletData::GooglePayThirdPartySdk
                | WalletData::MbWayRedirect
                | WalletData::MobilePayRedirect
                | WalletData::PaypalRedirect
                | WalletData::PaypalSdk
                | WalletData::Paze
                | WalletData::SamsungPay
                | WalletData::TwintRedirect
                | WalletData::VippsRedirect
                | WalletData::TouchNGoRedirect
                | WalletData::WeChatPayRedirect
                | WalletData::CashappQr
                | WalletData::SwishQr
                | WalletData::WeChatPayQr
                | WalletData::Mifinity
                | WalletData::RevolutPay => Err(
                    ConnectorError::NotImplemented(
                        Unimplemented::SelectedPaymentMethod { connector: "checkout" },
                    ),
                ),
            },
            PaymentMethodData::Card(_)
            | PaymentMethodData::PayLater
            | PaymentMethodData::BankRedirect
            | PaymentMethodData::BankDebit
            | PaymentMethodData::BankTransfer
            | PaymentMethodData::Crypto
            | PaymentMethodData::MandatePayment
            | PaymentMethodData::Reward
            | PaymentMethodData::RealTimePayment
            | PaymentMethodData::MobilePayment
            | PaymentMethodData::Upi
            | PaymentMethodData::Voucher
            | PaymentMethodData::CardRedirect
            | PaymentMethodData::GiftCard
            | PaymentMethodData::OpenBanking
            | PaymentMethodData::CardToken
            | PaymentMethodData::NetworkToken
            | PaymentMethodData::CardDetailsForNetworkTransactionId => Err(
                ConnectorError::NotImplemented(
                    Unimplemented::SelectedPaymentMethod { connector: "checkout" },
                ),
            ),
        }
    }

    /// The request for a payment method, from what its wallet token was decoded to. The
    /// token is in the format that [`TokenRequest::token_format`] tells.
    pub fn try_from(
        item: &TokenizationRouterData,
        decoded: Result<WalletToken, ConnectorError>,
    ) -> (res: Result<TokenRequest, ConnectorError>)
        requires
            (token_format(item.request.payment_method_data) matches Ok(format) && decoded matches Ok(
                token,
            )) ==> token_format(item.request.payment_method_data) == Ok::<
                WalletTokenFormat,
                ConnectorError,
            >(decoded->Ok_0.format()),
        ensures
            match (token_format(item.request.payment_method_data), decoded) {
                (Err(error), _) => res == Err::<TokenRequest, ConnectorError>(error),
                (Ok(_), Err(error)) => res == Err::<TokenRequest, ConnectorError>(error),
                (Ok(_), Ok(WalletToken::GooglePay(data))) => res == Ok::<
                    TokenRequest,
                    ConnectorError,
                >(TokenRequest::Googlepay(data)),
                (Ok(_), Ok(WalletToken::ApplePay(data))) => res == Ok::<
                    TokenRequest,
                    ConnectorError,
                >(TokenRequest::Applepay(data)),
            },
    {
        match TokenRequest::token_format(item) {
            Err(error) => Err(error),
            Ok(_) => match decoded {
                Err(error) => Err(error),
                Ok(WalletToken::GooglePay(data)) => Ok(TokenRequest::Googlepay(data)),
                Ok(WalletToken::ApplePay(data)) => Ok(TokenRequest::Applepay(data)),
            },
        }
    }
}

/// The answer to a request for a token.
pub struct CheckoutTokenResponse {
    pub token: Secret<String>,
}

impl<T> TryFrom<ResponseRouterData<CheckoutTokenResponse, T, PaymentsResponseData>> for RouterData<T, PaymentsResponseData> {
    type Error = ConnectorError;

    fn try_from(
        item: ResponseRouterData<CheckoutTokenResponse, T, PaymentsResponseData>,
    ) -> (res: Result<Self, ConnectorError>) {
        Ok(
            RouterData {
                response: Ok(
                    PaymentsResponseData::TokenizationResponse {
                        token: item.response.token.expose(),
                    },
                ),
                ..item.data
            },
        )
    }
}

impl<T> vstd::std_specs::convert::TryFromSpecImpl<ResponseRouterData<CheckoutTokenResponse, T, PaymentsResponseData>> for RouterData<T, PaymentsResponseData> {
    open spec fn obeys_try_from_spec() -> bool {
        true
    }

    open spec fn try_from_spec(
        item: ResponseRouterData<CheckoutTokenResponse, T, PaymentsResponseData>,
    ) -> Result<Self, ConnectorError> {
        Ok(
            RouterData {
                response: Ok(
                    PaymentsResponseData::TokenizationResponse {
                        token: item.response.token.inner_secret,
                    },
                ),
                ..item.data
            },
        )
    }
}

} // verus!
