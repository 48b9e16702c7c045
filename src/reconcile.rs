//! Folding a ledger transfer into the wallet's canonical payment record.
//!
//! The mapping is pure: the same transfer always gives the same payment, or
//! the same error.
use vstd::prelude::*;
use crate::model::{
    opt_view, copy_opt_string, InvoiceDetails, Payment, PaymentDetails, PaymentDetailsView,
    PaymentMethod, PaymentStatus, PaymentType, PaymentView, ReconcileError, SparkHtlcDetails,
    SparkHtlcDetailsView, SparkInvoicePaymentDetails, SparkInvoiceView, SspUserRequest,
    TransferDirection, TransferStatus, TransferType, WalletTransfer, LightningSendPayment,
    LightningSendStatus, TokenTransactionStatus,
};
use crate::htlc::{
    derive_htlc_details_from_ssp, derived_htlc_spec, htlc_details_from_preimage_request,
    htlc_from_request_spec, reconcile_htlc_preimage, reconciled_htlc,
};

verus! {

/// Swap bookkeeping kinds: internal leaf movements, never payments.
pub open spec fn is_swap_kind(k: TransferType) -> bool {
    match k {
        TransferType::CounterSwap | TransferType::CounterSwapV3 | TransferType::Swap
        | TransferType::PrimarySwapV3 => true,
        _ => false,
    }
}

/// Kinds whose user-intent records the ledger service publishes some time
/// after the transfer itself: a completed one of these without details is
/// still syncing.
pub open spec fn has_async_details(k: TransferType) -> bool {
    match k {
        TransferType::CooperativeExit | TransferType::PreimageSwap | TransferType::UtxoSwap => true,
        _ => false,
    }
}

pub open spec fn payment_type_of(d: TransferDirection) -> PaymentType {
    match d {
        TransferDirection::Incoming => PaymentType::Receive,
        TransferDirection::Outgoing => PaymentType::Send,
    }
}

/// Payment status read off the transfer's network status. A sender-side key
/// tweak completes an outgoing transfer, not an incoming one.
pub open spec fn network_status(s: TransferStatus, d: TransferDirection) -> PaymentStatus {
    match s {
        TransferStatus::Completed => PaymentStatus::Completed,
        TransferStatus::SenderKeyTweaked => if d == TransferDirection::Outgoing {
            PaymentStatus::Completed
        } else {
            PaymentStatus::Pending
        },
        TransferStatus::Expired | TransferStatus::Returned => PaymentStatus::Failed,
        _ => PaymentStatus::Pending,
    }
}

pub open spec fn or_zero(o: Option<u64>) -> u64 {
    match o {
        Some(v) => v,
        None => 0,
    }
}

pub open spec fn sat_sub(a: u64, b: u64) -> u64 {
    if a >= b {
        (a - b) as u64
    } else {
        0
    }
}

pub open spec fn sat_add(a: u64, b: u64) -> u64 {
    if a + b <= u64::MAX {
        (a + b) as u64
    } else {
        u64::MAX
    }
}

/// Fees and amount of a transfer, split according to its user intent.
pub open spec fn fee_split(t: WalletTransfer) -> (u64, u64) {
    match t.user_request {
        Some(SspUserRequest::LightningSendRequest(r)) => {
            let fee = or_zero(r.fee_sat);
            (fee, sat_sub(t.total_value_sat, fee))
        },
        Some(SspUserRequest::CoopExitRequest(r)) => {
            let fee = sat_add(or_zero(r.fee_sat), or_zero(r.l1_broadcast_fee_sat));
            (fee, sat_sub(t.total_value_sat, fee))
        },
        Some(SspUserRequest::ClaimStaticDeposit(r)) => {
            (sat_sub(or_zero(r.deposit_amount_sat), or_zero(r.credit_amount_sat)), t.total_value_sat)
        },
        _ => (0, t.total_value_sat),
    }
}

/// A Lightning send whose preimage is known has completed, whatever the
/// transfer status says.
pub open spec fn send_preimage_known(t: WalletTransfer) -> bool {
    match t.user_request {
        Some(SspUserRequest::LightningSendRequest(r)) => r.payment_preimage is Some,
        _ => false,
    }
}

pub open spec fn method_of(t: WalletTransfer) -> PaymentMethod {
    match t.transfer_type {
        TransferType::PreimageSwap => if t.is_ssp_transfer {
            PaymentMethod::Lightning
        } else {
            PaymentMethod::Spark
        },
        TransferType::CooperativeExit => PaymentMethod::Withdraw,
        TransferType::UtxoSwap => PaymentMethod::Deposit,
        TransferType::Transfer => PaymentMethod::Spark,
        _ => PaymentMethod::Unknown,
    }
}

pub open spec fn timestamp_of(created_at: Option<i64>) -> u64 {
    match created_at {
        Some(c) => if c >= 0 {
            c as u64
        } else {
            0
        },
        None => 0,
    }
}

/// HTLC details of a Lightning transfer: the preimage request reconciled with
/// the intent's preimage, or for a legacy transfer without one, derived.
pub open spec fn lightning_htlc_spec(
    t: WalletTransfer,
    payment_hash: Seq<char>,
    preimage: Option<Seq<char>>,
) -> Result<SparkHtlcDetailsView, ReconcileError> {
    match t.htlc_preimage_request {
        Some(req) => match htlc_from_request_spec(req) {
            Ok(h) => Ok(reconciled_htlc(h, preimage)),
            Err(e) => Err(e),
        },
        None => derived_htlc_spec(t, payment_hash, preimage),
    }
}

pub open spec fn lightning_details_view(
    inv: InvoiceDetails,
    encoded: Seq<char>,
    h: Result<SparkHtlcDetailsView, ReconcileError>,
) -> Result<Option<PaymentDetailsView>, ReconcileError> {
    match h {
        Ok(h) => Ok(
            Some(
                PaymentDetailsView::Lightning {
                    description: opt_view(inv.description),
                    invoice: encoded,
                    destination_pubkey: inv.payee_pubkey@,
                    htlc_details: h,
                },
            ),
        ),
        Err(e) => Err(e),
    }
}

pub open spec fn bare_spark_details() -> PaymentDetailsView {
    PaymentDetailsView::Spark { invoice_details: None, htlc_details: None }
}

/// Details of a transfer; `None` where a service-provider transfer carries no
/// user intent yet.
pub open spec fn details_spec(t: WalletTransfer) -> Result<Option<PaymentDetailsView>, ReconcileError> {
    if !t.is_ssp_transfer {
        match t.spark_invoice {
            Some(f) => match f.parsed {
                Some(d) => Ok(
                    Some(PaymentDetailsView::Spark { invoice_details: Some(d@), htlc_details: None }),
                ),
                None => Err(ReconcileError::InvalidSparkInvoice),
            },
            None => match t.htlc_preimage_request {
                Some(req) => match htlc_from_request_spec(req) {
                    Ok(h) => Ok(
                        Some(PaymentDetailsView::Spark { invoice_details: None, htlc_details: Some(h) }),
                    ),
                    Err(e) => Err(e),
                },
                None => Ok(Some(bare_spark_details())),
            },
        }
    } else {
        match t.user_request {
            None => Ok(None),
            Some(SspUserRequest::LightningReceiveRequest(r)) => match r.parsed_invoice {
                None => Err(ReconcileError::InvalidInvoice),
                Some(inv) => lightning_details_view(
                    inv,
                    r.encoded_invoice@,
                    lightning_htlc_spec(t, r.payment_hash@, opt_view(r.payment_preimage)),
                ),
            },
            Some(SspUserRequest::LightningSendRequest(r)) => match r.parsed_invoice {
                None => Err(ReconcileError::InvalidInvoice),
                Some(inv) => lightning_details_view(
                    inv,
                    r.encoded_invoice@,
                    lightning_htlc_spec(t, inv.payment_hash@, opt_view(r.payment_preimage)),
                ),
            },
            Some(SspUserRequest::CoopExitRequest(r)) => Ok(
                Some(PaymentDetailsView::Withdraw { tx_id: r.coop_exit_txid@ }),
            ),
            Some(SspUserRequest::LeavesSwapRequest) => Ok(Some(bare_spark_details())),
            Some(SspUserRequest::ClaimStaticDeposit(r)) => Ok(
                Some(PaymentDetailsView::Deposit { tx_id: r.transaction_id@ }),
            ),
        }
    }
}

/// The payment that a transfer reconciles to, or the error.
pub open spec fn reconcile_spec(t: WalletTransfer) -> Result<PaymentView, ReconcileError> {
    if is_swap_kind(t.transfer_type) {
        Err(ReconcileError::SwapTransfer)
    } else {
        match details_spec(t) {
            Err(e) => Err(e),
            Ok(details) => {
                let status0 = if send_preimage_known(t) {
                    PaymentStatus::Completed
                } else {
                    network_status(t.status, t.direction)
                };
                let status = if details is None && status0 == PaymentStatus::Completed
                    && has_async_details(t.transfer_type) {
                    PaymentStatus::Pending
                } else {
                    status0
                };
                let amount = if details is None {
                    t.total_value_sat
                } else {
                    fee_split(t).1
                };
                Ok(
                    PaymentView {
                        id: t.id@,
                        payment_type: payment_type_of(t.direction),
                        status,
                        amount: amount as u128,
                        fees: fee_split(t).0 as u128,
                        timestamp: timestamp_of(t.created_at),
                        method: method_of(t),
                        details,
                    },
                )
            },
        }
    }
}

pub open spec fn details_result_view(r: Result<Option<PaymentDetails>, ReconcileError>) -> Result<
    Option<PaymentDetailsView>,
    ReconcileError,
> {
    match r {
        Ok(Some(d)) => Ok(Some(d@)),
        Ok(None) => Ok(None),
        Err(e) => Err(e),
    }
}

pub open spec fn payment_result_view(r: Result<Payment, ReconcileError>) -> Result<
    PaymentView,
    ReconcileError,
> {
    match r {
        Ok(p) => Ok(p@),
        Err(e) => Err(e),
    }
}

fn saturating_sub_u64(a: u64, b: u64) -> (r: u64)
    ensures
        r == sat_sub(a, b),
{
    if a >= b {
        a - b
    } else {
        0
    }
}

fn saturating_add_u64(a: u64, b: u64) -> (r: u64)
    ensures
        r == sat_add(a, b),
{
    if a <= u64::MAX - b {
        a + b
    } else {
        u64::MAX
    }
}

fn sats_or_zero(o: Option<u64>) -> (r: u64)
    ensures
        r == or_zero(o),
{
    match o {
        Some(v) => v,
        None => 0,
    }
}

/// Fees and amount of a transfer: a Lightning send pays its declared fee out
/// of the total, a cooperative exit its declared fee plus the on-chain
/// broadcast fee, and a static deposit claim reports the haircut between
/// deposited and credited amounts as fee without taking it from the total.
pub fn fee_split_of(t: &WalletTransfer) -> (r: (u64, u64))
    ensures
        r == fee_split(*t),
{
    match &t.user_request {
        Some(SspUserRequest::LightningSendRequest(r)) => {
            let fee = sats_or_zero(r.fee_sat);
            (fee, saturating_sub_u64(t.total_value_sat, fee))
        },
        Some(SspUserRequest::CoopExitRequest(r)) => {
            let fee = saturating_add_u64(sats_or_zero(r.fee_sat), sats_or_zero(r.l1_broadcast_fee_sat));
            (fee, saturating_sub_u64(t.total_value_sat, fee))
        },
        Some(SspUserRequest::ClaimStaticDeposit(r)) => {
            (
                saturating_sub_u64(sats_or_zero(r.deposit_amount_sat), sats_or_zero(r.credit_amount_sat)),
                t.total_value_sat,
            )
        },
        _ => (0, t.total_value_sat),
    }
}

impl PaymentMethod {
    /// The payment method that a transfer's kind stands for.
    pub fn from_transfer(transfer: &WalletTransfer) -> (r: PaymentMethod)
        ensures
            r == method_of(*transfer),
    {
        match transfer.transfer_type {
            TransferType::PreimageSwap => {
                if transfer.is_ssp_transfer {
                    PaymentMethod::Lightning
                } else {
                    PaymentMethod::Spark
                }
            },
            TransferType::CooperativeExit => PaymentMethod::Withdraw,
            TransferType::UtxoSwap => PaymentMethod::Deposit,
            TransferType::Transfer => PaymentMethod::Spark,
            _ => PaymentMethod::Unknown,
        }
    }
}

fn copy_invoice_details(d: &SparkInvoicePaymentDetails) -> (r: SparkInvoicePaymentDetails)
    ensures
        r@ == d@,
{
    SparkInvoicePaymentDetails { description: copy_opt_string(&d.description), invoice: d.invoice.clone() }
}

/// HTLC details of a Lightning transfer, from its preimage request reconciled
/// with the intent's preimage, or derived for a legacy transfer without one.
fn lightning_htlc_details(
    transfer: &WalletTransfer,
    payment_hash: &String,
    preimage: &Option<String>,
) -> (r: Result<SparkHtlcDetails, ReconcileError>)
    ensures
        match r {
            Ok(d) => lightning_htlc_spec(*transfer, payment_hash@, opt_view(*preimage)) == Ok::<
                SparkHtlcDetailsView,
                ReconcileError,
            >(d@),
            Err(e) => lightning_htlc_spec(*transfer, payment_hash@, opt_view(*preimage)) == Err::<
                SparkHtlcDetailsView,
                ReconcileError,
            >(e),
        },
{
    match &transfer.htlc_preimage_request {
        Some(req) => {
            let mut details = htlc_details_from_preimage_request(req)?;
            reconcile_htlc_preimage(&mut details, preimage);
            Ok(details)
        },
        None => derive_htlc_details_from_ssp(transfer, payment_hash, preimage),
    }
}

fn lightning_details(
    inv: &InvoiceDetails,
    encoded_invoice: &String,
    htlc_details: SparkHtlcDetails,
) -> (r: PaymentDetails)
    ensures
        r@ == (PaymentDetailsView::Lightning {
            description: opt_view(inv.description),
            invoice: encoded_invoice@,
            destination_pubkey: inv.payee_pubkey@,
            htlc_details: htlc_details@,
        }),
{
    PaymentDetails::Lightning {
        description: copy_opt_string(&inv.description),
        invoice: encoded_invoice.clone(),
        destination_pubkey: inv.payee_pubkey.clone(),
        htlc_details,
    }
}

impl PaymentDetails {
    /// Method-specific details of a transfer. A peer-to-peer transfer carries
    /// its Spark invoice, or else its HTLC record; a service-provider transfer
    /// carries what its user intent says, and has no details while that
    /// intent is not yet known.
    pub fn from_transfer(transfer: &WalletTransfer) -> (r: Result<Option<PaymentDetails>, ReconcileError>)
        ensures
            details_result_view(r) == details_spec(*transfer),
    {
        if !transfer.is_ssp_transfer {
            if let Some(spark_invoice) = &transfer.spark_invoice {
                return match &spark_invoice.parsed {
                    Some(d) => Ok(
                        Some(
                            PaymentDetails::Spark {
                                invoice_details: Some(copy_invoice_details(d)),
                                htlc_details: None,
                            },
                        ),
                    ),
                    None => Err(ReconcileError::InvalidSparkInvoice),
                };
            }
            if let Some(req) = &transfer.htlc_preimage_request {
                let h = htlc_details_from_preimage_request(req)?;
                return Ok(Some(PaymentDetails::Spark { invoice_details: None, htlc_details: Some(h) }));
            }
            return Ok(Some(PaymentDetails::Spark { invoice_details: None, htlc_details: None }));
        }
        let user_request = match &transfer.user_request {
            Some(u) => u,
            None => return Ok(None),
        };
        let details = match user_request {
            SspUserRequest::LightningReceiveRequest(request) => {
                let inv = match &request.parsed_invoice {
                    Some(inv) => inv,
                    None => return Err(ReconcileError::InvalidInvoice),
                };
                let h = lightning_htlc_details(transfer, &request.payment_hash, &request.payment_preimage)?;
                lightning_details(inv, &request.encoded_invoice, h)
            },
            SspUserRequest::LightningSendRequest(request) => {
                let inv = match &request.parsed_invoice {
                    Some(inv) => inv,
                    None => return Err(ReconcileError::InvalidInvoice),
                };
                let h = lightning_htlc_details(transfer, &inv.payment_hash, &request.payment_preimage)?;
                lightning_details(inv, &request.encoded_invoice, h)
            },
            SspUserRequest::CoopExitRequest(request) => PaymentDetails::Withdraw {
                tx_id: request.coop_exit_txid.clone(),
            },
            SspUserRequest::LeavesSwapRequest => PaymentDetails::Spark {
                invoice_details: None,
                htlc_details: None,
            },
            SspUserRequest::ClaimStaticDeposit(request) => PaymentDetails::Deposit {
                tx_id: request.transaction_id.clone(),
            },
        };
        Ok(Some(details))
    }
}

impl Payment {
    /// Reconciles a ledger transfer into a payment. Swap bookkeeping kinds are
    /// refused; an unparseable invoice, or a missing HTLC record on a
    /// Lightning transfer made after records became mandatory, is an error.
    pub fn try_from_transfer(transfer: &WalletTransfer) -> (r: Result<Payment, ReconcileError>)
        ensures
            payment_result_view(r) == reconcile_spec(*transfer),
    {
        let swap = match transfer.transfer_type {
            TransferType::CounterSwap | TransferType::CounterSwapV3 | TransferType::Swap
            | TransferType::PrimarySwapV3 => true,
            _ => false,
        };
        if swap {
            return Err(ReconcileError::SwapTransfer);
        }
        let payment_type = match transfer.direction {
            TransferDirection::Incoming => PaymentType::Receive,
            TransferDirection::Outgoing => PaymentType::Send,
        };
        let mut status = match transfer.status {
            TransferStatus::Completed => PaymentStatus::Completed,
            TransferStatus::SenderKeyTweaked => {
                if transfer.direction == TransferDirection::Outgoing {
                    PaymentStatus::Completed
                } else {
                    PaymentStatus::Pending
                }
            },
            TransferStatus::Expired | TransferStatus::Returned => PaymentStatus::Failed,
            _ => PaymentStatus::Pending,
        };
        if let Some(SspUserRequest::LightningSendRequest(r)) = &transfer.user_request {
            if r.payment_preimage.is_some() {
                status = PaymentStatus::Completed;
            }
        }
        let (fees_sat, split_amount) = fee_split_of(transfer);
        let mut amount_sat = split_amount;
        let details = PaymentDetails::from_transfer(transfer)?;
        if details.is_none() {
            let async_details = match transfer.transfer_type {
                TransferType::CooperativeExit | TransferType::PreimageSwap
                | TransferType::UtxoSwap => true,
                _ => false,
            };
            if status == PaymentStatus::Completed && async_details {
                status = PaymentStatus::Pending;
            }
            amount_sat = transfer.total_value_sat;
        }
        let timestamp: u64 = match transfer.created_at {
            Some(c) => if c >= 0 {
                c as u64
            } else {
                0
            },
            None => 0,
        };
        Ok(
            Payment {
                id: transfer.id.clone(),
                payment_type,
                status,
                amount: amount_sat as u128,
                fees: fees_sat as u128,
                timestamp,
                method: PaymentMethod::from_transfer(transfer),
                details,
            },
        )
    }
}

/// Payment status of a Lightning send as the service provider reports it.
pub open spec fn send_status(s: LightningSendStatus) -> PaymentStatus {
    match s {
        LightningSendStatus::LightningPaymentSucceeded => PaymentStatus::Completed,
        LightningSendStatus::LightningPaymentFailed | LightningSendStatus::TransferFailed
        | LightningSendStatus::PreimageProvidingFailed | LightningSendStatus::UserSwapReturnFailed
        | LightningSendStatus::UserSwapReturned => PaymentStatus::Failed,
        _ => PaymentStatus::Pending,
    }
}

/// The payment built from a Lightning send's immediate answer, or the error.
pub open spec fn from_lightning_spec(
    p: LightningSendPayment,
    amount_sat: u128,
    transfer_id: Seq<char>,
    htlc: SparkHtlcDetailsView,
) -> Result<PaymentView, ReconcileError> {
    match p.parsed_invoice {
        None => Err(ReconcileError::InvalidInvoice),
        Some(inv) => Ok(
            PaymentView {
                id: transfer_id,
                payment_type: PaymentType::Send,
                status: if p.payment_preimage is Some {
                    PaymentStatus::Completed
                } else {
                    send_status(p.status)
                },
                amount: amount_sat,
                fees: p.fee_sat as u128,
                timestamp: p.created_at as u64,
                method: PaymentMethod::Lightning,
                details: Some(
                    PaymentDetailsView::Lightning {
                        description: opt_view(inv.description),
                        invoice: p.encoded_invoice@,
                        destination_pubkey: inv.payee_pubkey@,
                        htlc_details: reconciled_htlc(htlc, opt_view(p.payment_preimage)),
                    },
                ),
            },
        ),
    }
}

impl Payment {
    /// Builds a payment from a Lightning send's immediate answer and the HTLC
    /// details captured for it. Those details may be stale: a preimage in
    /// them is kept, a missing one is taken from the answer, and a known
    /// preimage marks the HTLC as shared and the payment as completed. The
    /// timestamp is the creation time reinterpreted as unsigned.
    pub fn from_lightning(
        payment: LightningSendPayment,
        amount_sat: u128,
        transfer_id: String,
        htlc_details: SparkHtlcDetails,
    ) -> (r: Result<Payment, ReconcileError>)
        ensures
            payment_result_view(r) == from_lightning_spec(payment, amount_sat, transfer_id@, htlc_details@),
    {
        let mut status = match payment.status {
            LightningSendStatus::LightningPaymentSucceeded => PaymentStatus::Completed,
            LightningSendStatus::LightningPaymentFailed | LightningSendStatus::TransferFailed
            | LightningSendStatus::PreimageProvidingFailed
            | LightningSendStatus::UserSwapReturnFailed
            | LightningSendStatus::UserSwapReturned => PaymentStatus::Failed,
            _ => PaymentStatus::Pending,
        };
        if payment.payment_preimage.is_some() {
            status = PaymentStatus::Completed;
        }
        let mut htlc_details = htlc_details;
        reconcile_htlc_preimage(&mut htlc_details, &payment.payment_preimage);
        let inv = match &payment.parsed_invoice {
            Some(inv) => inv,
            None => return Err(ReconcileError::InvalidInvoice),
        };
        let details = lightning_details(inv, &payment.encoded_invoice, htlc_details);
        Ok(
            Payment {
                id: transfer_id,
                payment_type: PaymentType::Send,
                status,
                amount: amount_sat,
                fees: payment.fee_sat as u128,
                timestamp: payment.created_at as u64,
                method: PaymentMethod::Lightning,
                details: Some(details),
            },
        )
    }
}

/// Reconciling the same transfer twice gives identical payments, or the same
/// error: the outcome is a function of the transfer alone.
pub proof fn reconciliation_is_idempotent(
    t: WalletTransfer,
    first: Result<Payment, ReconcileError>,
    second: Result<Payment, ReconcileError>,
)
    requires
        payment_result_view(first) == reconcile_spec(t),
        payment_result_view(second) == reconcile_spec(t),
    ensures
        payment_result_view(first) == payment_result_view(second),
{
}

/// A swap bookkeeping transfer never reconciles to a payment.
pub proof fn swap_transfers_are_rejected(t: WalletTransfer)
    requires
        is_swap_kind(t.transfer_type),
    ensures
        reconcile_spec(t) == Err::<PaymentView, ReconcileError>(ReconcileError::SwapTransfer),
{
}

/// A service-provider Lightning transfer with no HTLC record may be derived
/// from its intent only while it predates mandatory HTLC records: created
/// exactly at the cutoff it is an error, one second earlier it reconciles.
pub proof fn legacy_cutoff_boundary(t: WalletTransfer)
    requires
        !is_swap_kind(t.transfer_type),
        t.is_ssp_transfer,
        t.htlc_preimage_request is None,
        match t.user_request {
            Some(SspUserRequest::LightningReceiveRequest(r)) => r.parsed_invoice is Some,
            Some(SspUserRequest::LightningSendRequest(r)) => r.parsed_invoice is Some,
            _ => false,
        },
    ensures
        t.created_at == Some(crate::htlc::HTLC_DATA_REQUIRED_SINCE) ==> reconcile_spec(t)
            == Err::<PaymentView, ReconcileError>(ReconcileError::MissingHtlcDetails),
        t.created_at == Some((crate::htlc::HTLC_DATA_REQUIRED_SINCE - 1) as i64) ==> reconcile_spec(
            t,
        ) is Ok,
{
}

/// Payment status of a token transaction. A signed transfer transaction is
/// still pending; any other signed transaction has completed.
pub open spec fn token_status(s: TokenTransactionStatus, is_transfer_transaction: bool) -> PaymentStatus {
    match s {
        TokenTransactionStatus::Started | TokenTransactionStatus::Revealed
        | TokenTransactionStatus::Unknown => PaymentStatus::Pending,
        TokenTransactionStatus::Signed => if is_transfer_transaction {
            PaymentStatus::Pending
        } else {
            PaymentStatus::Completed
        },
        TokenTransactionStatus::Finalized => PaymentStatus::Completed,
        TokenTransactionStatus::StartedCancelled | TokenTransactionStatus::SignedCancelled =>
            PaymentStatus::Failed,
    }
}

impl PaymentStatus {
    /// The payment status of a token transaction.
    pub fn from_token_transaction_status(
        status: TokenTransactionStatus,
        is_transfer_transaction: bool,
    ) -> (r: PaymentStatus)
        ensures
            r == token_status(status, is_transfer_transaction),
    {
        match status {
            TokenTransactionStatus::Started | TokenTransactionStatus::Revealed
            | TokenTransactionStatus::Unknown => PaymentStatus::Pending,
            TokenTransactionStatus::Signed if is_transfer_transaction => PaymentStatus::Pending,
            TokenTransactionStatus::Finalized | TokenTransactionStatus::Signed => {
                PaymentStatus::Completed
            },
            TokenTransactionStatus::StartedCancelled | TokenTransactionStatus::SignedCancelled => {
                PaymentStatus::Failed
            },
        }
    }
}

/// Reconciles each transfer of a sync round on its own: one transfer's error
/// stands in its own slot and does not keep the others from reconciling.
pub fn reconcile_transfers(transfers: &Vec<WalletTransfer>) -> (r: Vec<Result<Payment, ReconcileError>>)
    ensures
        r@.len() == transfers@.len(),
        forall|i: int|
            0 <= i < r@.len() ==> payment_result_view(#[trigger] r@[i]) == reconcile_spec(transfers@[i]),
{
    let mut out: Vec<Result<Payment, ReconcileError>> = Vec::new();
    let mut i: usize = 0;
    while i < transfers.len()
        invariant
            i <= transfers@.len(),
            out@.len() == i,
            forall|j: int|
                0 <= j < i ==> payment_result_view(#[trigger] out@[j]) == reconcile_spec(transfers@[j]),
        decreases transfers@.len() - i,
    {
        out.push(Payment::try_from_transfer(&transfers[i]));
        i = i + 1;
    }
    out
}

} // verus!
