//! Raw ledger records as the reconciler reads them, and the canonical
//! payment record it produces.
//!
//! Times are whole seconds since the Unix epoch, rounded down; negative values
//! stand for instants before the epoch.
use vstd::prelude::*;

verus! {

/// Direction of a ledger transfer, seen from this wallet.
#[derive(Clone, Copy, Debug, PartialEq, Eq, Structural)]
pub enum TransferDirection {
    Incoming,
    Outgoing,
}

/// Network status of a ledger transfer.
#[derive(Clone, Copy, Debug, PartialEq, Eq, Structural)]
pub enum TransferStatus {
    SenderInitiated,
    SenderInitiatedCoordinator,
    SenderKeyTweakPending,
    SenderKeyTweaked,
    ReceiverKeyTweaked,
    ReceiverKeyTweakLocked,
    ReceiverKeyTweakApplied,
    ReceiverRefundSigned,
    Completed,
    Expired,
    Returned,
}

/// Kind of a ledger transfer.
#[derive(Clone, Copy, Debug, PartialEq, Eq, Structural)]
pub enum TransferType {
    PreimageSwap,
    CooperativeExit,
    Transfer,
    UtxoSwap,
    Swap,
    PrimarySwapV3,
    CounterSwap,
    CounterSwapV3,
}

/// Status of an HTLC preimage request held by the ledger service.
#[derive(Clone, Copy, Debug, PartialEq, Eq, Structural)]
pub enum PreimageRequestStatus {
    WaitingForPreimage,
    PreimageShared,
    Returned,
}

/// HTLC record attached by the ledger service to a Lightning transfer.
#[derive(Clone, Debug)]
pub struct PreimageRequest {
    /// Hex form of the payment hash.
    pub payment_hash: String,
    /// Raw preimage bytes, once revealed.
    pub preimage: Option<Vec<u8>>,
    pub expiry_time: i64,
    pub status: PreimageRequestStatus,
}

/// What a BOLT11 invoice says, once parsed.
#[derive(Clone, Debug)]
pub struct InvoiceDetails {
    pub description: Option<String>,
    pub payee_pubkey: String,
    pub payment_hash: String,
}

/// Lightning receive brokered by the service provider.
#[derive(Clone, Debug)]
pub struct LightningReceiveRequest {
    pub encoded_invoice: String,
    pub payment_hash: String,
    /// The parsed invoice; `None` where it does not parse.
    pub parsed_invoice: Option<InvoiceDetails>,
    pub payment_preimage: Option<String>,
}

/// Lightning send brokered by the service provider.
#[derive(Clone, Debug)]
pub struct LightningSendRequest {
    pub encoded_invoice: String,
    /// The parsed invoice; `None` where it does not parse.
    pub parsed_invoice: Option<InvoiceDetails>,
    /// Declared fee in satoshis; `None` where it is not given in satoshis.
    pub fee_sat: Option<u64>,
    pub payment_preimage: Option<String>,
}

/// Cooperative exit to an on-chain address.
#[derive(Clone, Debug)]
pub struct CoopExitRequest {
    pub coop_exit_txid: String,
    pub fee_sat: Option<u64>,
    pub l1_broadcast_fee_sat: Option<u64>,
}

/// Claim of a static deposit address output.
#[derive(Clone, Debug)]
pub struct ClaimStaticDepositRequest {
    pub transaction_id: String,
    pub deposit_amount_sat: Option<u64>,
    pub credit_amount_sat: Option<u64>,
}

/// The user intent that the service provider recorded for a transfer.
#[derive(Clone, Debug)]
pub enum SspUserRequest {
    LightningReceiveRequest(LightningReceiveRequest),
    LightningSendRequest(LightningSendRequest),
    CoopExitRequest(CoopExitRequest),
    LeavesSwapRequest,
    ClaimStaticDeposit(ClaimStaticDepositRequest),
}

/// Spark invoice embedded in a transfer.
#[derive(Clone, Debug)]
pub struct SparkInvoiceField {
    pub encoded: String,
    /// The parsed invoice; `None` where it is not a valid Spark invoice.
    pub parsed: Option<SparkInvoicePaymentDetails>,
}

/// A fund movement recorded by the ledger service.
#[derive(Clone, Debug)]
pub struct WalletTransfer {
    pub id: String,
    pub direction: TransferDirection,
    pub status: TransferStatus,
    pub transfer_type: TransferType,
    pub total_value_sat: u64,
    pub created_at: Option<i64>,
    pub expiry_time: Option<i64>,
    pub user_request: Option<SspUserRequest>,
    pub spark_invoice: Option<SparkInvoiceField>,
    pub htlc_preimage_request: Option<PreimageRequest>,
    pub is_ssp_transfer: bool,
}

/// Progress of a Lightning send as the service provider reports it.
#[derive(Clone, Copy, Debug, PartialEq, Eq, Structural)]
pub enum LightningSendStatus {
    Created,
    RequestValidated,
    LightningPaymentInitiated,
    LightningPaymentFailed,
    LightningPaymentSucceeded,
    PreimageProvided,
    PreimageProvidingFailed,
    TransferCompleted,
    TransferFailed,
    PendingUserSwapReturn,
    UserSwapReturned,
    UserSwapReturnFailed,
}

/// Status of a token transaction on the ledger service.
#[derive(Clone, Copy, Debug, PartialEq, Eq, Structural)]
pub enum TokenTransactionStatus {
    Started,
    StartedCancelled,
    Signed,
    SignedCancelled,
    Revealed,
    Finalized,
    Unknown,
}

/// The service provider's immediate answer to a Lightning send.
#[derive(Clone, Debug)]
pub struct LightningSendPayment {
    pub status: LightningSendStatus,
    pub encoded_invoice: String,
    /// The parsed invoice; `None` where it does not parse.
    pub parsed_invoice: Option<InvoiceDetails>,
    pub fee_sat: u64,
    pub created_at: i64,
    pub payment_preimage: Option<String>,
}

#[derive(Clone, Copy, Debug, PartialEq, Eq, Structural)]
pub enum PaymentType {
    Send,
    Receive,
}

#[derive(Clone, Copy, Debug, PartialEq, Eq, Structural)]
pub enum PaymentStatus {
    Completed,
    Pending,
    Failed,
}

#[derive(Clone, Copy, Debug, PartialEq, Eq, Structural)]
pub enum PaymentMethod {
    Lightning,
    Spark,
    Token,
    Deposit,
    Withdraw,
    Unknown,
}

#[derive(Clone, Copy, Debug, PartialEq, Eq, Structural)]
pub enum SparkHtlcStatus {
    WaitingForPreimage,
    PreimageShared,
    Returned,
}

/// HTLC state of a Lightning or Spark HTLC payment.
#[derive(Clone, Debug)]
pub struct SparkHtlcDetails {
    pub payment_hash: String,
    pub preimage: Option<String>,
    pub expiry_time: u64,
    pub status: SparkHtlcStatus,
}

#[derive(Clone, Debug)]
pub struct SparkInvoicePaymentDetails {
    pub description: Option<String>,
    pub invoice: String,
}

/// Method-specific details of a payment.
#[derive(Clone, Debug)]
#[allow(inconsistent_fields)]
pub enum PaymentDetails {
    Spark {
        invoice_details: Option<SparkInvoicePaymentDetails>,
        htlc_details: Option<SparkHtlcDetails>,
    },
    Lightning {
        description: Option<String>,
        invoice: String,
        destination_pubkey: String,
        htlc_details: SparkHtlcDetails,
    },
    Withdraw { tx_id: String },
    Deposit { tx_id: String },
}

/// The wallet's canonical record of a payment.
#[derive(Clone, Debug)]
pub struct Payment {
    pub id: String,
    pub payment_type: PaymentType,
    pub status: PaymentStatus,
    pub amount: u128,
    pub fees: u128,
    pub timestamp: u64,
    pub method: PaymentMethod,
    pub details: Option<PaymentDetails>,
}

/// Why a ledger record could not be turned into a payment.
#[derive(Clone, Copy, Debug, PartialEq, Eq, Structural)]
pub enum ReconcileError {
    /// Swap bookkeeping transfers are not payments.
    SwapTransfer,
    InvalidSparkInvoice,
    InvalidInvoice,
    /// A Lightning transfer made after HTLC records became mandatory has none.
    MissingHtlcDetails,
    /// An HTLC record expires before the Unix epoch.
    InvalidExpiryTime,
}

pub open spec fn opt_view(o: Option<String>) -> Option<Seq<char>> {
    match o {
        Some(s) => Some(s@),
        None => None,
    }
}

pub struct SparkHtlcDetailsView {
    pub payment_hash: Seq<char>,
    pub preimage: Option<Seq<char>>,
    pub expiry_time: u64,
    pub status: SparkHtlcStatus,
}

impl View for SparkHtlcDetails {
    type V = SparkHtlcDetailsView;

    open spec fn view(&self) -> SparkHtlcDetailsView {
        SparkHtlcDetailsView {
            payment_hash: self.payment_hash@,
            preimage: opt_view(self.preimage),
            expiry_time: self.expiry_time,
            status: self.status,
        }
    }
}

pub struct SparkInvoiceView {
    pub description: Option<Seq<char>>,
    pub invoice: Seq<char>,
}

impl View for SparkInvoicePaymentDetails {
    type V = SparkInvoiceView;

    open spec fn view(&self) -> SparkInvoiceView {
        SparkInvoiceView { description: opt_view(self.description), invoice: self.invoice@ }
    }
}

#[allow(inconsistent_fields)]
pub enum PaymentDetailsView {
    Spark { invoice_details: Option<SparkInvoiceView>, htlc_details: Option<SparkHtlcDetailsView> },
    Lightning {
        description: Option<Seq<char>>,
        invoice: Seq<char>,
        destination_pubkey: Seq<char>,
        htlc_details: SparkHtlcDetailsView,
    },
    Withdraw { tx_id: Seq<char> },
    Deposit { tx_id: Seq<char> },
}

impl View for PaymentDetails {
    type V = PaymentDetailsView;

    open spec fn view(&self) -> PaymentDetailsView {
        match self {
            PaymentDetails::Spark { invoice_details, htlc_details } => PaymentDetailsView::Spark {
                invoice_details: match invoice_details {
                    Some(i) => Some(i@),
                    None => None,
                },
                htlc_details: match htlc_details {
                    Some(h) => Some(h@),
                    None => None,
                },
            },
            PaymentDetails::Lightning { description, invoice, destination_pubkey, htlc_details } =>
                PaymentDetailsView::Lightning {
                description: opt_view(*description),
                invoice: invoice@,
                destination_pubkey: destination_pubkey@,
                htlc_details: htlc_details@,
            },
            PaymentDetails::Withdraw { tx_id } => PaymentDetailsView::Withdraw { tx_id: tx_id@ },
            PaymentDetails::Deposit { tx_id } => PaymentDetailsView::Deposit { tx_id: tx_id@ },
        }
    }
}

pub struct PaymentView {
    pub id: Seq<char>,
    pub payment_type: PaymentType,
    pub status: PaymentStatus,
    pub amount: u128,
    pub fees: u128,
    pub timestamp: u64,
    pub method: PaymentMethod,
    pub details: Option<PaymentDetailsView>,
}

impl View for Payment {
    type V = PaymentView;

    open spec fn view(&self) -> PaymentView {
        PaymentView {
            id: self.id@,
            payment_type: self.payment_type,
            status: self.status,
            amount: self.amount,
            fees: self.fees,
            timestamp: self.timestamp,
            method: self.method,
            details: match self.details {
                Some(d) => Some(d@),
                None => None,
            },
        }
    }
}

/// A copy of an optional string.
pub fn copy_opt_string(o: &Option<String>) -> (r: Option<String>)
    ensures
        r == *o,
{
    match o {
        Some(s) => Some(s.clone()),
        None => None,
    }
}

} // verus!
