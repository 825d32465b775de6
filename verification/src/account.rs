//! Account identities and their textual SS58 address form.
//!
//! An account is a 32-byte identity. Operators hand it to the client as an
//! SS58 address: a base-58 check-encoded string with an embedded network
//! prefix. A malformed address is rejected here, before any network
//! interaction. The encoding and decoding themselves are done by the client
//! library's account type; this module states what they return and proves the
//! round trip on top of that.

use vstd::prelude::*;
use vstd::string::StringExecFns;

verus! {

/// What decoding an SS58 address string yields: the 32 account bytes for a
/// well-formed address of an account, nothing for a malformed string. A
/// function of the string alone.
pub uninterp spec fn ss58_decode(s: Seq<char>) -> Option<Seq<u8>>;

/// What encoding 32 account bytes as an SS58 address yields. A function of
/// the bytes alone.
pub uninterp spec fn ss58_encode(b: Seq<u8>) -> Seq<char>;

/// Relies on `subxt::utils::AccountId32`'s `FromStr`: it base-58-decodes the
/// string, checks its length, network prefix and checksum, and returns the 32
/// account bytes, or an error for a malformed string. Deterministic in the
/// string alone. Two boundaries of the underlying decoder: its base-58 step
/// can panic on inputs with very many leading `1` characters, so strings
/// longer than any real address are excluded here by precondition and screened
/// by the caller; and it accepts any network prefix from 0 to 127 with a valid
/// checksum, not only the default one, so addresses of foreign networks pass
/// validation.
#[verifier::external_body]
fn ss58_parse(s: &str) -> (r: Option<[u8; 32]>)
    requires
        s@.len() <= 64,
    ensures
        r matches Some(b) ==> ss58_decode(s@) == Some(b@),
        r is None ==> ss58_decode(s@) is None,
{
    match <subxt::utils::AccountId32 as core::str::FromStr>::from_str(s) {
        Ok(account) => Some(account.0),
        Err(_) => None,
    }
}

/// Relies on `subxt::utils::AccountId32`'s `Display`: it base-58-encodes the
/// network prefix, the 32 account bytes and a checksum over both, exactly the
/// shape its own `FromStr` accepts and returns the bytes from — so decoding
/// the result yields the bytes back. Deterministic in the bytes alone. The
/// encoded 35 bytes spell at most 48 base-58 characters.
#[verifier::external_body]
fn ss58_format(b: &[u8; 32]) -> (r: String)
    ensures
        r@ == ss58_encode(b@),
        ss58_decode(r@) == Some(b@),
        r@.len() <= 64,
{
    subxt::utils::AccountId32(*b).to_string()
}

/// A 32-byte account identity on the chain this client administers.
#[derive(Clone, Debug, PartialEq, Eq)]
pub struct CreditcoinAccountId {
    bytes: [u8; 32],
}

impl View for CreditcoinAccountId {
    type V = Seq<u8>;

    closed spec fn view(&self) -> Seq<u8> {
        self.bytes@
    }
}

impl CreditcoinAccountId {
    /// Take an account identity from its raw 32 bytes.
    pub fn from_bytes(bytes: [u8; 32]) -> (r: Self)
        ensures
            r@ == bytes@,
    {
        CreditcoinAccountId { bytes }
    }

    /// The raw 32 bytes of this identity.
    pub fn to_bytes(&self) -> (r: [u8; 32])
        ensures
            r@ == self@,
    {
        self.bytes
    }

    /// Parse an operator-supplied SS58 address. A string that decodes to an
    /// account yields that account; anything else — a string longer than any
    /// address among it — is rejected with a message naming the offending
    /// string, before any network interaction.
    pub fn from_str(s: &str) -> (r: Result<Self, String>)
        ensures
            r matches Ok(a) ==> ss58_decode(s@) == Some(a@),
            r matches Err(m) ==> m@ == s@ + " is not a valid SS58 Address"@,
            r is Err && s@.len() <= 64 ==> ss58_decode(s@) is None,
    {
        let parsed = if s.unicode_len() <= 64 {
            ss58_parse(s)
        } else {
            None
        };
        match parsed {
            Some(bytes) => Ok(CreditcoinAccountId { bytes }),
            None => Err(String::from_str(s).concat(" is not a valid SS58 Address")),
        }
    }

    /// This identity's SS58 address string: at most 64 characters.
    pub fn to_ss58check(&self) -> (r: String)
        ensures
            r@ == ss58_encode(self@),
            ss58_decode(r@) == Some(self@),
            r@.len() <= 64,
    {
        ss58_format(&self.bytes)
    }
}

/// Law: an account encoded to its SS58 address string and decoded back comes
/// back equal — the address is a faithful textual form of the identity.
pub fn ss58_round_trip(a: &CreditcoinAccountId) -> (r: Option<CreditcoinAccountId>)
    ensures
        r matches Some(b) && b@ == a@,
{
    let s = a.to_ss58check();
    match CreditcoinAccountId::from_str(s.as_str()) {
        Ok(b) => Some(b),
        Err(_) => None,
    }
}

} // verus!
