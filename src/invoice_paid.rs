//! Paid invoices of the LNURL server: checking a revealed preimage against
//! the invoice's payment hash, and the records written once it holds.
use vstd::prelude::*;
use bitcoin::hashes::sha256;
use crate::model::opt_view;

verus! {

#[verifier::external_type_specification]
#[verifier::external_body]
pub struct ExFromHexError(hex::FromHexError);

#[derive(Clone, Debug)]
pub enum HandleInvoicePaidError {
    InvalidPreimage(String),
    /// A failure of the invoice repository, with its description.
    Repository(String),
}

pub open spec fn is_hex_char(c: char) -> bool {
    ('0' <= c && c <= '9') || ('a' <= c && c <= 'f') || ('A' <= c && c <= 'F')
}

/// Value of a hex digit, in either case.
pub open spec fn hex_value(c: char) -> u8 {
    if '0' <= c && c <= '9' {
        (c as u32 - '0' as u32) as u8
    } else if 'a' <= c && c <= 'f' {
        (c as u32 - 'a' as u32 + 10) as u8
    } else {
        (c as u32 - 'A' as u32 + 10) as u8
    }
}

/// Whether a text is an even number of hex digits.
pub open spec fn hex_decodable(s: Seq<char>) -> bool {
    s.len() % 2 == 0 && forall|i: int| 0 <= i < s.len() ==> is_hex_char(#[trigger] s[i])
}

/// The bytes that a hex text spells, two digits per byte, high digit first.
pub open spec fn hex_decoded(s: Seq<char>) -> Seq<u8> {
    Seq::new(s.len() / 2, |i: int| (hex_value(s[2 * i]) * 16 + hex_value(s[2 * i + 1])) as u8)
}

/// Relies on hex::decode: an even number of hex digits of either case
/// decodes, two digits per byte; anything else is an error.
#[verifier::external_body]
fn decode_hex(s: &str) -> (r: Result<Vec<u8>, hex::FromHexError>)
    ensures
        r is Ok <==> hex_decodable(s@),
        r is Ok ==> r->Ok_0@ == hex_decoded(s@),
{
    hex::decode(s)
}

/// Lower-case hex form of the SHA-256 digest of a byte string.
pub uninterp spec fn sha256_hex(data: Seq<u8>) -> Seq<char>;

/// Relies on bitcoin::hashes::sha256::Hash::hash and its `Display`: the
/// digest of the bytes, written forwards in lower-case hex.
#[verifier::external_body]
fn sha256_hex_of(data: &Vec<u8>) -> (r: String)
    ensures
        r@ == sha256_hex(data@),
{
    <sha256::Hash as bitcoin::hashes::Hash>::hash(data.as_slice()).to_string()
}

/// Whether a computed digest is the expected payment hash.
pub fn hash_matches(computed_hash: &String, payment_hash: &str) -> (r: bool)
    ensures
        r == (computed_hash@ == payment_hash@),
{
    let expected = payment_hash.to_owned();
    *computed_hash == expected
}

/// Checks that the preimage, in hex, hashes to the payment hash, in hex.
pub fn verify_preimage(payment_hash: &str, preimage: &str) -> (r: Result<(), HandleInvoicePaidError>)
    ensures
        r is Ok <==> hex_decodable(preimage@) && sha256_hex(hex_decoded(preimage@)) == payment_hash@,
        r is Err ==> r->Err_0 is InvalidPreimage,
{
    let preimage_bytes = match decode_hex(preimage) {
        Ok(b) => b,
        Err(_) => {
            return Err(
                HandleInvoicePaidError::InvalidPreimage("could not hex-decode preimage".to_owned()),
            );
        },
    };
    let computed_hash = sha256_hex_of(&preimage_bytes);
    if !hash_matches(&computed_hash, payment_hash) {
        return Err(
            HandleInvoicePaidError::InvalidPreimage("preimage does not match payment hash".to_owned()),
        );
    }
    Ok(())
}

/// An invoice record of the LNURL server.
#[derive(Clone, Debug)]
pub struct Invoice {
    pub payment_hash: String,
    pub user_pubkey: String,
    pub invoice: String,
    pub preimage: Option<String>,
    pub invoice_expiry: i64,
    pub created_at: i64,
    pub updated_at: i64,
}

/// A paid invoice queued for background processing.
#[derive(Clone, Debug)]
pub struct NewlyPaid {
    pub payment_hash: String,
    pub created_at: i64,
    pub retry_count: u32,
    pub next_retry_at: i64,
}

/// A fresh, unpaid invoice record created at `now`.
pub fn new_invoice_record(
    payment_hash: &str,
    user_pubkey: &str,
    invoice: &str,
    invoice_expiry: i64,
    now: i64,
) -> (r: Invoice)
    ensures
        r.payment_hash@ == payment_hash@,
        r.user_pubkey@ == user_pubkey@,
        r.invoice@ == invoice@,
        r.preimage is None,
        r.invoice_expiry == invoice_expiry,
        r.created_at == now,
        r.updated_at == now,
{
    Invoice {
        payment_hash: payment_hash.to_owned(),
        user_pubkey: user_pubkey.to_owned(),
        invoice: invoice.to_owned(),
        preimage: None,
        invoice_expiry,
        created_at: now,
        updated_at: now,
    }
}

/// What paying an invoice writes: nothing where it already holds a
/// preimage; otherwise the invoice with the preimage stored and updated at
/// `now`, and a queue entry for immediate processing.
pub fn mark_invoice_paid(invoice: &Invoice, preimage: &str, now: i64) -> (r: Option<(Invoice, NewlyPaid)>)
    ensures
        invoice.preimage is Some <==> r is None,
        match r {
            Some((paid, queued)) => {
                &&& paid.payment_hash == invoice.payment_hash
                &&& paid.user_pubkey == invoice.user_pubkey
                &&& paid.invoice == invoice.invoice
                &&& opt_view(paid.preimage) == Some(preimage@)
                &&& paid.invoice_expiry == invoice.invoice_expiry
                &&& paid.created_at == invoice.created_at
                &&& paid.updated_at == now
                &&& queued.payment_hash == invoice.payment_hash
                &&& queued.created_at == now
                &&& queued.retry_count == 0
                &&& queued.next_retry_at == now
            },
            None => true,
        },
{
    if invoice.preimage.is_some() {
        return None;
    }
    let paid = Invoice {
        payment_hash: invoice.payment_hash.clone(),
        user_pubkey: invoice.user_pubkey.clone(),
        invoice: invoice.invoice.clone(),
        preimage: Some(preimage.to_owned()),
        invoice_expiry: invoice.invoice_expiry,
        created_at: invoice.created_at,
        updated_at: now,
    };
    let queued = NewlyPaid {
        payment_hash: invoice.payment_hash.clone(),
        created_at: now,
        retry_count: 0,
        next_retry_at: now,
    };
    Some((paid, queued))
}

} // verus!
