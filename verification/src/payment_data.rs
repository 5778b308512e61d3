//! What a customer pays with.
use vstd::prelude::*;
use crate::errors::Required;
use crate::secret::Secret;

verus! {

/// A payment card.
pub struct Card {
    pub card_number: Secret<String>,
    pub card_exp_month: Secret<String>,
    pub card_exp_year: Secret<String>,
    pub card_cvc: Secret<String>,
    /// The expiry as two digits of the month, then two of the year, nothing between.
    pub expiry_month_year: Required<Secret<String>>,
}

/// A wallet. The wallet's own data is read where a connector decodes its token.
#[derive(Clone, Copy, Debug, PartialEq, Eq, Structural)]
pub enum WalletData {
    AliPayQr,
    AliPayRedirect,
    AliPayHkRedirect,
    AmazonPayRedirect,
    Paysera,
    Skrill,
    BluecodeRedirect,
    MomoRedirect,
    KakaoPayRedirect,
    GoPayRedirect,
    GcashRedirect,
    ApplePay,
    ApplePayRedirect,
    ApplePayThirdPartySdk,
    DanaRedirect,
    GooglePay,
    GooglePayRedirect,
    GooglePayThirdPartySdk,
    MbWayRedirect,
    MobilePayRedirect,
    PaypalRedirect,
    PaypalSdk,
    Paze,
    SamsungPay,
    TwintRedirect,
    VippsRedirect,
    TouchNGoRedirect,
    WeChatPayRedirect,
    WeChatPayQr,
    CashappQr,
    SwishQr,
    Mifinity,
    RevolutPay,
}

/// What a customer pays with.
pub enum PaymentMethodData {
    Card(Card),
    CardDetailsForNetworkTransactionId,
    CardRedirect,
    Wallet(WalletData),
    PayLater,
    BankRedirect,
    BankDebit,
    BankTransfer,
    Crypto,
    MandatePayment,
    Reward,
    RealTimePayment,
    Upi,
    Voucher,
    GiftCard,
    CardToken,
    OpenBanking,
    NetworkToken,
    MobilePayment,
}

/// An Apple Pay token after decryption.
pub struct ApplePayDecryptedData {
    pub application_primary_account_number: Secret<String>,
    pub expiry_month: Required<Secret<String>>,
    pub four_digit_expiry_year: Required<Secret<String>>,
    pub eci_indicator: Option<String>,
    pub online_payment_cryptogram: Secret<String>,
}

/// What stands for the payment method at the connector.
pub enum PaymentMethodToken {
    Token(Secret<String>),
    ApplePayDecrypt(ApplePayDecryptedData),
    PazeDecrypt,
    GooglePayDecrypt,
}

} // verus!
