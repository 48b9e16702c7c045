use breez_core::htlc::{
    derive_htlc_details_from_ssp, htlc_details_from_preimage_request, reconcile_htlc_preimage,
    HTLC_DATA_REQUIRED_SINCE,
};
use breez_core::model::{
    ClaimStaticDepositRequest, CoopExitRequest, InvoiceDetails, LightningReceiveRequest,
    LightningSendPayment, LightningSendRequest, LightningSendStatus, Payment, PaymentDetails,
    PaymentMethod, PaymentStatus, PaymentType, PreimageRequest, PreimageRequestStatus,
    ReconcileError, SparkHtlcDetails, SparkHtlcStatus, SparkInvoiceField,
    SparkInvoicePaymentDetails, SspUserRequest, TokenTransactionStatus, TransferDirection,
    TransferStatus, TransferType, WalletTransfer,
};

fn transfer(kind: TransferType, status: TransferStatus, total: u64) -> WalletTransfer {
    WalletTransfer {
        id: "tr-1".to_string(),
        direction: TransferDirection::Outgoing,
        status,
        transfer_type: kind,
        total_value_sat: total,
        created_at: Some(1_700_000_000),
        expiry_time: Some(1_700_003_600),
        user_request: None,
        spark_invoice: None,
        htlc_preimage_request: None,
        is_ssp_transfer: true,
    }
}

fn invoice() -> InvoiceDetails {
    InvoiceDetails {
        description: Some("coffee".to_string()),
        payee_pubkey: "02abcd".to_string(),
        payment_hash: "hash-from-invoice".to_string(),
    }
}

fn send_request(fee: Option<u64>, preimage: Option<&str>) -> SspUserRequest {
    SspUserRequest::LightningSendRequest(LightningSendRequest {
        encoded_invoice: "lnbc1send".to_string(),
        parsed_invoice: Some(invoice()),
        fee_sat: fee,
        payment_preimage: preimage.map(|p| p.to_string()),
    })
}

fn receive_request(preimage: Option<&str>) -> SspUserRequest {
    SspUserRequest::LightningReceiveRequest(LightningReceiveRequest {
        encoded_invoice: "lnbc1recv".to_string(),
        payment_hash: "hash-from-request".to_string(),
        parsed_invoice: Some(invoice()),
        payment_preimage: preimage.map(|p| p.to_string()),
    })
}

fn htlc_of(p: &Payment) -> SparkHtlcDetails {
    match &p.details {
        Some(PaymentDetails::Lightning { htlc_details, .. }) => htlc_details.clone(),
        other => panic!("expected Lightning details, got {other:?}"),
    }
}

#[test]
fn lightning_send_pending_then_completed_by_preimage() {
    let mut t = transfer(TransferType::PreimageSwap, TransferStatus::SenderInitiated, 10_000);
    t.user_request = Some(send_request(Some(100), None));
    let p = Payment::try_from_transfer(&t).unwrap();
    assert_eq!(p.status, PaymentStatus::Pending);
    assert_eq!(p.amount, 9_900);
    assert_eq!(p.fees, 100);
    assert_eq!(p.payment_type, PaymentType::Send);
    assert_eq!(p.method, PaymentMethod::Lightning);

    t.user_request = Some(send_request(Some(100), Some("00ff")));
    let p = Payment::try_from_transfer(&t).unwrap();
    assert_eq!(p.status, PaymentStatus::Completed);
    assert_eq!(p.amount, 9_900);
    assert_eq!(p.fees, 100);
    let h = htlc_of(&p);
    assert_eq!(h.preimage.as_deref(), Some("00ff"));
    assert_eq!(h.payment_hash, "hash-from-invoice");
}

#[test]
fn cooperative_exit_fees_add_up() {
    let mut t = transfer(TransferType::CooperativeExit, TransferStatus::Completed, 50_000);
    t.user_request = Some(SspUserRequest::CoopExitRequest(CoopExitRequest {
        coop_exit_txid: "txid-1".to_string(),
        fee_sat: Some(200),
        l1_broadcast_fee_sat: Some(150),
    }));
    let p = Payment::try_from_transfer(&t).unwrap();
    assert_eq!(p.amount, 49_650);
    assert_eq!(p.fees, 350);
    assert_eq!(p.status, PaymentStatus::Completed);
    assert_eq!(p.method, PaymentMethod::Withdraw);
    match p.details {
        Some(PaymentDetails::Withdraw { tx_id }) => assert_eq!(tx_id, "txid-1"),
        other => panic!("unexpected details {other:?}"),
    }
}

#[test]
fn fee_larger_than_total_saturates() {
    let mut t = transfer(TransferType::PreimageSwap, TransferStatus::Completed, 50);
    t.user_request = Some(send_request(Some(80), None));
    let p = Payment::try_from_transfer(&t).unwrap();
    assert_eq!(p.amount, 0);
    assert_eq!(p.fees, 80);
}

#[test]
fn coop_exit_fee_sum_saturates() {
    let mut t = transfer(TransferType::CooperativeExit, TransferStatus::Completed, 1_000);
    t.user_request = Some(SspUserRequest::CoopExitRequest(CoopExitRequest {
        coop_exit_txid: "txid-2".to_string(),
        fee_sat: Some(u64::MAX),
        l1_broadcast_fee_sat: Some(10),
    }));
    let p = Payment::try_from_transfer(&t).unwrap();
    assert_eq!(p.fees, u64::MAX as u128);
    assert_eq!(p.amount, 0);
}

#[test]
fn static_deposit_fee_is_not_subtracted() {
    let mut t = transfer(TransferType::UtxoSwap, TransferStatus::Completed, 9_000);
    t.direction = TransferDirection::Incoming;
    t.user_request = Some(SspUserRequest::ClaimStaticDeposit(ClaimStaticDepositRequest {
        transaction_id: "deposit-tx".to_string(),
        deposit_amount_sat: Some(10_000),
        credit_amount_sat: Some(9_000),
    }));
    let p = Payment::try_from_transfer(&t).unwrap();
    assert_eq!(p.fees, 1_000);
    assert_eq!(p.amount, 9_000);
    assert_eq!(p.payment_type, PaymentType::Receive);
    assert_eq!(p.method, PaymentMethod::Deposit);
}

#[test]
fn swap_kinds_are_rejected() {
    for kind in [
        TransferType::CounterSwap,
        TransferType::CounterSwapV3,
        TransferType::Swap,
        TransferType::PrimarySwapV3,
    ] {
        let t = transfer(kind, TransferStatus::Completed, 1_000);
        assert_eq!(
            Payment::try_from_transfer(&t).unwrap_err(),
            ReconcileError::SwapTransfer
        );
    }
}

#[test]
fn reconciliation_twice_gives_identical_payments() {
    let mut t = transfer(TransferType::PreimageSwap, TransferStatus::SenderKeyTweaked, 7_000);
    t.user_request = Some(send_request(Some(7), None));
    let a = Payment::try_from_transfer(&t).unwrap();
    let b = Payment::try_from_transfer(&t).unwrap();
    assert_eq!(format!("{a:?}"), format!("{b:?}"));
}

#[test]
fn completed_async_kind_without_details_stays_pending() {
    let t = transfer(TransferType::CooperativeExit, TransferStatus::Completed, 5_000);
    let p = Payment::try_from_transfer(&t).unwrap();
    assert_eq!(p.status, PaymentStatus::Pending);
    assert_eq!(p.amount, 5_000);
    assert_eq!(p.fees, 0);
    assert!(p.details.is_none());

    let t = transfer(TransferType::Transfer, TransferStatus::Completed, 5_000);
    let p = Payment::try_from_transfer(&t).unwrap();
    assert_eq!(p.status, PaymentStatus::Completed);
}

#[test]
fn sender_key_tweaked_completes_outgoing_only() {
    let mut t = transfer(TransferType::Transfer, TransferStatus::SenderKeyTweaked, 1_000);
    t.is_ssp_transfer = false;
    let p = Payment::try_from_transfer(&t).unwrap();
    assert_eq!(p.status, PaymentStatus::Completed);
    t.direction = TransferDirection::Incoming;
    let p = Payment::try_from_transfer(&t).unwrap();
    assert_eq!(p.status, PaymentStatus::Pending);
}

#[test]
fn expired_and_returned_transfers_fail() {
    let mut t = transfer(TransferType::Transfer, TransferStatus::Expired, 1_000);
    t.is_ssp_transfer = false;
    assert_eq!(Payment::try_from_transfer(&t).unwrap().status, PaymentStatus::Failed);
    t.status = TransferStatus::Returned;
    assert_eq!(Payment::try_from_transfer(&t).unwrap().status, PaymentStatus::Failed);
}

#[test]
fn timestamp_is_creation_time_or_zero() {
    let mut t = transfer(TransferType::Transfer, TransferStatus::Completed, 1);
    t.is_ssp_transfer = false;
    assert_eq!(Payment::try_from_transfer(&t).unwrap().timestamp, 1_700_000_000);
    t.created_at = None;
    assert_eq!(Payment::try_from_transfer(&t).unwrap().timestamp, 0);
    t.created_at = Some(-5);
    assert_eq!(Payment::try_from_transfer(&t).unwrap().timestamp, 0);
}

#[test]
fn spark_invoice_is_parsed_or_rejected() {
    let mut t = transfer(TransferType::Transfer, TransferStatus::Completed, 1_000);
    t.is_ssp_transfer = false;
    t.spark_invoice = Some(SparkInvoiceField {
        encoded: "spark1invoice".to_string(),
        parsed: Some(SparkInvoicePaymentDetails {
            description: Some("rent".to_string()),
            invoice: "spark1invoice".to_string(),
        }),
    });
    let p = Payment::try_from_transfer(&t).unwrap();
    assert_eq!(p.method, PaymentMethod::Spark);
    match p.details {
        Some(PaymentDetails::Spark { invoice_details: Some(d), htlc_details: None }) => {
            assert_eq!(d.description.as_deref(), Some("rent"));
        }
        other => panic!("unexpected details {other:?}"),
    }
    t.spark_invoice = Some(SparkInvoiceField { encoded: "garbage".to_string(), parsed: None });
    assert_eq!(
        Payment::try_from_transfer(&t).unwrap_err(),
        ReconcileError::InvalidSparkInvoice
    );
}

#[test]
fn invalid_lightning_invoice_is_rejected() {
    let mut t = transfer(TransferType::PreimageSwap, TransferStatus::Completed, 1_000);
    t.user_request = Some(SspUserRequest::LightningSendRequest(LightningSendRequest {
        encoded_invoice: "not-an-invoice".to_string(),
        parsed_invoice: None,
        fee_sat: None,
        payment_preimage: None,
    }));
    assert_eq!(Payment::try_from_transfer(&t).unwrap_err(), ReconcileError::InvalidInvoice);
}

#[test]
fn spark_htlc_preimage_is_hex_encoded() {
    let mut t = transfer(TransferType::PreimageSwap, TransferStatus::Completed, 1_000);
    t.is_ssp_transfer = false;
    t.htlc_preimage_request = Some(PreimageRequest {
        payment_hash: "ab".repeat(32),
        preimage: Some(vec![0x00, 0x1f, 0xa0, 0xff]),
        expiry_time: 1_700_001_000,
        status: PreimageRequestStatus::PreimageShared,
    });
    let p = Payment::try_from_transfer(&t).unwrap();
    assert_eq!(p.method, PaymentMethod::Spark);
    match p.details {
        Some(PaymentDetails::Spark { invoice_details: None, htlc_details: Some(h) }) => {
            assert_eq!(h.preimage.as_deref(), Some("001fa0ff"));
            assert_eq!(h.expiry_time, 1_700_001_000);
            assert_eq!(h.status, SparkHtlcStatus::PreimageShared);
        }
        other => panic!("unexpected details {other:?}"),
    }
}

#[test]
fn htlc_expiry_before_epoch_is_an_error() {
    let req = PreimageRequest {
        payment_hash: "cd".to_string(),
        preimage: None,
        expiry_time: -1,
        status: PreimageRequestStatus::WaitingForPreimage,
    };
    assert_eq!(
        htlc_details_from_preimage_request(&req).unwrap_err(),
        ReconcileError::InvalidExpiryTime
    );
}

#[test]
fn htlc_record_adopts_intent_preimage() {
    let mut t = transfer(TransferType::PreimageSwap, TransferStatus::SenderInitiated, 2_000);
    t.direction = TransferDirection::Incoming;
    t.user_request = Some(receive_request(Some("beef")));
    t.htlc_preimage_request = Some(PreimageRequest {
        payment_hash: "hash-from-record".to_string(),
        preimage: None,
        expiry_time: 1_700_002_000,
        status: PreimageRequestStatus::WaitingForPreimage,
    });
    let p = Payment::try_from_transfer(&t).unwrap();
    let h = htlc_of(&p);
    assert_eq!(h.preimage.as_deref(), Some("beef"));
    assert_eq!(h.status, SparkHtlcStatus::PreimageShared);
    assert_eq!(h.payment_hash, "hash-from-record");
    assert_eq!(p.status, PaymentStatus::Pending);
}

#[test]
fn shared_preimage_is_sticky() {
    let mut d = SparkHtlcDetails {
        payment_hash: "h".to_string(),
        preimage: Some("aa".to_string()),
        expiry_time: 10,
        status: SparkHtlcStatus::PreimageShared,
    };
    reconcile_htlc_preimage(&mut d, &None);
    assert_eq!(d.preimage.as_deref(), Some("aa"));
    assert_eq!(d.status, SparkHtlcStatus::PreimageShared);
    reconcile_htlc_preimage(&mut d, &Some("bb".to_string()));
    assert_eq!(d.preimage.as_deref(), Some("aa"));
    assert_eq!(d.status, SparkHtlcStatus::PreimageShared);
}

#[test]
fn missing_preimage_keeps_status() {
    let mut d = SparkHtlcDetails {
        payment_hash: "h".to_string(),
        preimage: None,
        expiry_time: 10,
        status: SparkHtlcStatus::Returned,
    };
    reconcile_htlc_preimage(&mut d, &None);
    assert_eq!(d.preimage, None);
    assert_eq!(d.status, SparkHtlcStatus::Returned);
}

#[test]
fn legacy_cutoff_is_required_since() {
    for request in [send_request(None, None), receive_request(None)] {
        let mut t = transfer(TransferType::PreimageSwap, TransferStatus::Completed, 3_000);
        t.user_request = Some(request);
        t.created_at = Some(HTLC_DATA_REQUIRED_SINCE);
        assert_eq!(
            Payment::try_from_transfer(&t).unwrap_err(),
            ReconcileError::MissingHtlcDetails
        );
        t.created_at = Some(1_769_904_000 - 1);
        let p = Payment::try_from_transfer(&t).unwrap();
        let h = htlc_of(&p);
        assert_eq!(h.status, SparkHtlcStatus::PreimageShared);
    }
}

#[test]
fn legacy_derivation_follows_transfer_status() {
    let mut t = transfer(TransferType::PreimageSwap, TransferStatus::Expired, 3_000);
    t.created_at = None;
    t.expiry_time = Some(-20);
    let d = derive_htlc_details_from_ssp(&t, &"ph".to_string(), &Some("pp".to_string())).unwrap();
    assert_eq!(d.status, SparkHtlcStatus::Returned);
    assert_eq!(d.expiry_time, 0);
    assert_eq!(d.payment_hash, "ph");
    assert_eq!(d.preimage.as_deref(), Some("pp"));
    t.status = TransferStatus::ReceiverKeyTweaked;
    t.expiry_time = Some(1_700_009_999);
    let d = derive_htlc_details_from_ssp(&t, &"ph".to_string(), &None).unwrap();
    assert_eq!(d.status, SparkHtlcStatus::WaitingForPreimage);
    assert_eq!(d.expiry_time, 1_700_009_999);
}

#[test]
fn ssp_transfer_without_intent_has_no_details() {
    let t = transfer(TransferType::Transfer, TransferStatus::Completed, 4_000);
    let p = Payment::try_from_transfer(&t).unwrap();
    assert!(p.details.is_none());
    assert_eq!(p.status, PaymentStatus::Completed);
}

#[test]
fn lightning_send_result_builds_payment() {
    let payment = LightningSendPayment {
        status: LightningSendStatus::LightningPaymentInitiated,
        encoded_invoice: "lnbc1direct".to_string(),
        parsed_invoice: Some(invoice()),
        fee_sat: 12,
        created_at: 1_700_000_500,
        payment_preimage: Some("cafe".to_string()),
    };
    let htlc = SparkHtlcDetails {
        payment_hash: "hh".to_string(),
        preimage: None,
        expiry_time: 99,
        status: SparkHtlcStatus::WaitingForPreimage,
    };
    let p = Payment::from_lightning(payment.clone(), 5_000, "tr-9".to_string(), htlc.clone()).unwrap();
    assert_eq!(p.status, PaymentStatus::Completed);
    assert_eq!(p.amount, 5_000);
    assert_eq!(p.fees, 12);
    assert_eq!(p.timestamp, 1_700_000_500);
    assert_eq!(p.id, "tr-9");
    let h = htlc_of(&p);
    assert_eq!(h.preimage.as_deref(), Some("cafe"));
    assert_eq!(h.status, SparkHtlcStatus::PreimageShared);

    let mut failed = payment.clone();
    failed.payment_preimage = None;
    failed.status = LightningSendStatus::UserSwapReturned;
    let p = Payment::from_lightning(failed, 5_000, "tr-9".to_string(), htlc.clone()).unwrap();
    assert_eq!(p.status, PaymentStatus::Failed);
    assert_eq!(htlc_of(&p).status, SparkHtlcStatus::WaitingForPreimage);

    let mut bad = payment;
    bad.parsed_invoice = None;
    assert_eq!(
        Payment::from_lightning(bad, 5_000, "tr-9".to_string(), htlc).unwrap_err(),
        ReconcileError::InvalidInvoice
    );
}

#[test]
fn token_transaction_statuses() {
    assert_eq!(PaymentStatus::from_token_transaction_status(TokenTransactionStatus::Signed, true), PaymentStatus::Pending);
    assert_eq!(PaymentStatus::from_token_transaction_status(TokenTransactionStatus::Signed, false), PaymentStatus::Completed);
    assert_eq!(PaymentStatus::from_token_transaction_status(TokenTransactionStatus::Finalized, true), PaymentStatus::Completed);
    assert_eq!(PaymentStatus::from_token_transaction_status(TokenTransactionStatus::Started, false), PaymentStatus::Pending);
    assert_eq!(PaymentStatus::from_token_transaction_status(TokenTransactionStatus::SignedCancelled, false), PaymentStatus::Failed);
}

#[test]
fn payment_method_by_kind() {
    let mut t = transfer(TransferType::PreimageSwap, TransferStatus::Completed, 1);
    assert_eq!(PaymentMethod::from_transfer(&t), PaymentMethod::Lightning);
    t.is_ssp_transfer = false;
    assert_eq!(PaymentMethod::from_transfer(&t), PaymentMethod::Spark);
    t.transfer_type = TransferType::UtxoSwap;
    assert_eq!(PaymentMethod::from_transfer(&t), PaymentMethod::Deposit);
    t.transfer_type = TransferType::Swap;
    assert_eq!(PaymentMethod::from_transfer(&t), PaymentMethod::Unknown);
}

#[test]
fn one_bad_transfer_does_not_stop_the_round() {
    let mut good = transfer(TransferType::Transfer, TransferStatus::Completed, 1_000);
    good.is_ssp_transfer = false;
    let swap = transfer(TransferType::Swap, TransferStatus::Completed, 2_000);
    let results = breez_core::reconcile::reconcile_transfers(&vec![good.clone(), swap, good]);
    assert_eq!(results.len(), 3);
    assert!(results[0].is_ok());
    assert_eq!(results[1].as_ref().unwrap_err(), &ReconcileError::SwapTransfer);
    assert_eq!(results[2].as_ref().unwrap().amount, 1_000);
}

#[test]
fn lightning_send_timestamp_is_reinterpreted_unsigned() {
    let payment = LightningSendPayment {
        status: LightningSendStatus::Created,
        encoded_invoice: "lnbc1neg".to_string(),
        parsed_invoice: Some(invoice()),
        fee_sat: 0,
        created_at: -1,
        payment_preimage: None,
    };
    let htlc = SparkHtlcDetails {
        payment_hash: "hh".to_string(),
        preimage: None,
        expiry_time: 0,
        status: SparkHtlcStatus::WaitingForPreimage,
    };
    let p = Payment::from_lightning(payment, 1, "tr".to_string(), htlc).unwrap();
    assert_eq!(p.timestamp, u64::MAX);
    assert_eq!(p.status, PaymentStatus::Pending);
}
