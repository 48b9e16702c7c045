//! Errors of the Nostr zap support.
use vstd::prelude::*;

verus! {

#[derive(Clone, Debug, PartialEq, Eq)]
pub enum NostrError {
    KeyDerivationError(String),
    ZapReceiptCreationError(String),
}

impl NostrError {
    /// A human-readable description of the error.
    pub fn message(&self) -> (r: String)
        ensures
            r@ == match self {
                NostrError::KeyDerivationError(m) => nostr_message_key_derivation() + m@,
                NostrError::ZapReceiptCreationError(m) => nostr_message_zap_receipt() + m@,
            },
    {
        match self {
            NostrError::KeyDerivationError(m) => {
                let mut r = "Key derivation error: ".to_owned();
                proof {
                    reveal_strlit("Key derivation error: ");
                }
                r.append(m.as_str());
                r
            },
            NostrError::ZapReceiptCreationError(m) => {
                let mut r = "Zap receipt creation error: ".to_owned();
                proof {
                    reveal_strlit("Zap receipt creation error: ");
                }
                r.append(m.as_str());
                r
            },
        }
    }
}

pub open spec fn nostr_message_key_derivation() -> Seq<char> {
    "Key derivation error: "@
}

pub open spec fn nostr_message_zap_receipt() -> Seq<char> {
    "Zap receipt creation error: "@
}

} // verus!
