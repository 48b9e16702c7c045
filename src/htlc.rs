//! HTLC state of Lightning transfers: taken from the ledger service's
//! preimage request where there is one, derived from the transfer itself for
//! legacy transfers that predate those records.
use vstd::prelude::*;
use crate::model::{
    opt_view, copy_opt_string, PreimageRequest, PreimageRequestStatus, ReconcileError,
    SparkHtlcDetails, SparkHtlcDetailsView, SparkHtlcStatus, TransferStatus, WalletTransfer,
};

verus! {

/// 2026-02-01T00:00:00Z: transfers made from then on carry HTLC records.
pub const HTLC_DATA_REQUIRED_SINCE: i64 = 1_769_904_000;

/// Lower-case hex digit of a value below 16.
pub open spec fn hex_digit(n: u8) -> char {
    if n < 10 {
        ('0' as u8 + n) as char
    } else {
        ('a' as u8 + (n - 10)) as char
    }
}

/// Lower-case hex form of a byte string, two digits per byte.
pub open spec fn hex_lower(b: Seq<u8>) -> Seq<char> {
    Seq::new(
        2 * b.len(),
        |i: int|
            if i % 2 == 0 {
                hex_digit(b[i / 2] / 16)
            } else {
                hex_digit(b[i / 2] % 16)
            },
    )
}

/// Relies on hex::encode: two lower-case digits for each byte, in order.
#[verifier::external_body]
pub(crate) fn encode_hex(b: &Vec<u8>) -> (r: String)
    ensures
        r@ == hex_lower(b@),
{
    hex::encode(b)
}

pub open spec fn htlc_status_of(s: PreimageRequestStatus) -> SparkHtlcStatus {
    match s {
        PreimageRequestStatus::WaitingForPreimage => SparkHtlcStatus::WaitingForPreimage,
        PreimageRequestStatus::PreimageShared => SparkHtlcStatus::PreimageShared,
        PreimageRequestStatus::Returned => SparkHtlcStatus::Returned,
    }
}

/// The HTLC status that corresponds one to one to a preimage request status.
pub fn htlc_status_from_request(s: PreimageRequestStatus) -> (r: SparkHtlcStatus)
    ensures
        r == htlc_status_of(s),
{
    match s {
        PreimageRequestStatus::WaitingForPreimage => SparkHtlcStatus::WaitingForPreimage,
        PreimageRequestStatus::PreimageShared => SparkHtlcStatus::PreimageShared,
        PreimageRequestStatus::Returned => SparkHtlcStatus::Returned,
    }
}

/// HTLC details read off a preimage request, or the error it gives.
pub open spec fn htlc_from_request_spec(req: PreimageRequest) -> Result<
    SparkHtlcDetailsView,
    ReconcileError,
> {
    if req.expiry_time < 0 {
        Err(ReconcileError::InvalidExpiryTime)
    } else {
        Ok(
            SparkHtlcDetailsView {
                payment_hash: req.payment_hash@,
                preimage: match req.preimage {
                    Some(p) => Some(hex_lower(p@)),
                    None => None,
                },
                expiry_time: req.expiry_time as u64,
                status: htlc_status_of(req.status),
            },
        )
    }
}

pub open spec fn htlc_result_view(r: Result<SparkHtlcDetails, ReconcileError>) -> Result<
    SparkHtlcDetailsView,
    ReconcileError,
> {
    match r {
        Ok(d) => Ok(d@),
        Err(e) => Err(e),
    }
}

/// Converts the ledger service's preimage request into HTLC details: the
/// preimage in lower-case hex, the expiry in seconds since the epoch. An
/// expiry before the epoch is an error.
pub fn htlc_details_from_preimage_request(req: &PreimageRequest) -> (r: Result<
    SparkHtlcDetails,
    ReconcileError,
>)
    ensures
        htlc_result_view(r) == htlc_from_request_spec(*req),
{
    if req.expiry_time < 0 {
        return Err(ReconcileError::InvalidExpiryTime);
    }
    let preimage = match &req.preimage {
        Some(p) => Some(encode_hex(p)),
        None => None,
    };
    Ok(
        SparkHtlcDetails {
            payment_hash: req.payment_hash.clone(),
            preimage,
            expiry_time: req.expiry_time as u64,
            status: htlc_status_from_request(req.status),
        },
    )
}

/// HTLC details once a fallback preimage has been taken into account: a
/// preimage already present is kept, a missing one is taken from the
/// fallback, and whenever a preimage is known the status is `PreimageShared`.
pub open spec fn reconciled_htlc(d: SparkHtlcDetailsView, fallback: Option<Seq<char>>) -> SparkHtlcDetailsView {
    let preimage = if d.preimage is None {
        fallback
    } else {
        d.preimage
    };
    SparkHtlcDetailsView {
        payment_hash: d.payment_hash,
        preimage,
        expiry_time: d.expiry_time,
        status: if preimage is Some {
            SparkHtlcStatus::PreimageShared
        } else {
            d.status
        },
    }
}

/// Fills in a missing preimage from `preimage` and marks the HTLC as
/// `PreimageShared` whenever a preimage is known.
pub fn reconcile_htlc_preimage(details: &mut SparkHtlcDetails, preimage: &Option<String>)
    ensures
        final(details)@ == reconciled_htlc(old(details)@, opt_view(*preimage)),
{
    if details.preimage.is_none() {
        details.preimage = copy_opt_string(preimage);
    }
    if details.preimage.is_some() {
        details.status = SparkHtlcStatus::PreimageShared;
    }
}

/// Whether a transfer predates mandatory HTLC records; one of unknown age
/// counts as old.
pub open spec fn is_legacy_transfer(t: WalletTransfer) -> bool {
    match t.created_at {
        Some(c) => c < HTLC_DATA_REQUIRED_SINCE,
        None => true,
    }
}

pub open spec fn legacy_htlc_status(s: TransferStatus) -> SparkHtlcStatus {
    match s {
        TransferStatus::Completed => SparkHtlcStatus::PreimageShared,
        TransferStatus::Expired | TransferStatus::Returned => SparkHtlcStatus::Returned,
        _ => SparkHtlcStatus::WaitingForPreimage,
    }
}

pub open spec fn expiry_secs(e: Option<i64>) -> u64 {
    match e {
        Some(t) => if t >= 0 {
            t as u64
        } else {
            0
        },
        None => 0,
    }
}

/// HTLC details of a transfer that has no preimage request, or the error.
pub open spec fn derived_htlc_spec(
    t: WalletTransfer,
    payment_hash: Seq<char>,
    preimage: Option<Seq<char>>,
) -> Result<SparkHtlcDetailsView, ReconcileError> {
    if !is_legacy_transfer(t) {
        Err(ReconcileError::MissingHtlcDetails)
    } else {
        Ok(
            SparkHtlcDetailsView {
                payment_hash,
                preimage,
                expiry_time: expiry_secs(t.expiry_time),
                status: legacy_htlc_status(t.status),
            },
        )
    }
}

/// Derives HTLC details from the service provider's request data, for a
/// transfer whose preimage request is missing. Only legacy transfers may lack
/// one: for a later transfer this is an error.
pub fn derive_htlc_details_from_ssp(
    transfer: &WalletTransfer,
    payment_hash: &String,
    preimage: &Option<String>,
) -> (r: Result<SparkHtlcDetails, ReconcileError>)
    ensures
        htlc_result_view(r) == derived_htlc_spec(*transfer, payment_hash@, opt_view(*preimage)),
{
    let is_old = match transfer.created_at {
        Some(c) => c < HTLC_DATA_REQUIRED_SINCE,
        None => true,
    };
    if !is_old {
        return Err(ReconcileError::MissingHtlcDetails);
    }
    let status = match transfer.status {
        TransferStatus::Completed => SparkHtlcStatus::PreimageShared,
        TransferStatus::Expired | TransferStatus::Returned => SparkHtlcStatus::Returned,
        _ => SparkHtlcStatus::WaitingForPreimage,
    };
    let expiry_time: u64 = match transfer.expiry_time {
        Some(t) => if t >= 0 {
            t as u64
        } else {
            0
        },
        None => 0,
    };
    Ok(
        SparkHtlcDetails {
            payment_hash: payment_hash.clone(),
            preimage: copy_opt_string(preimage),
            expiry_time,
            status,
        },
    )
}

/// Once an HTLC shows `PreimageShared` with a preimage, reconciling it again
/// with any fallback keeps that preimage and that status; with no fallback it
/// leaves the details exactly as they were.
pub proof fn preimage_is_sticky(d: SparkHtlcDetailsView, fallback: Option<Seq<char>>)
    requires
        d.status == SparkHtlcStatus::PreimageShared,
        d.preimage is Some,
    ensures
        reconciled_htlc(d, fallback).preimage == d.preimage,
        reconciled_htlc(d, fallback).status == SparkHtlcStatus::PreimageShared,
        reconciled_htlc(d, None) == d,
{
}

} // verus!
