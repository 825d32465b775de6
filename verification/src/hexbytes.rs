//! Hexadecimal byte strings, as operators supply them on the command line.
//!
//! A hex string is a run of digit pairs, optionally prefixed with `0x`; each
//! pair spells one byte. Decoding accepts both digit cases; encoding produces
//! lower case with the `0x` prefix.

use vstd::prelude::*;
use vstd::string::StrSliceExecFns;
use vstd::string::StringExecFns;

verus! {

/// The value of one hex digit: `0`-`9`, `a`-`f` or `A`-`F`, by code point.
pub open spec fn hex_digit_value(c: char) -> Option<u8> {
    let n = c as u32;
    if 48 <= n <= 57 {
        Some((n - 48) as u8)
    } else if 97 <= n <= 102 {
        Some((n - 87) as u8)
    } else if 65 <= n <= 70 {
        Some((n - 55) as u8)
    } else {
        None
    }
}

pub open spec fn is_hex_digit(c: char) -> bool {
    hex_digit_value(c) is Some
}

/// A decodable hex string: hex digits throughout, two per byte.
pub open spec fn valid_hex(s: Seq<char>) -> bool {
    &&& s.len() % 2 == 0
    &&& forall|i: int| 0 <= i < s.len() ==> is_hex_digit(#[trigger] s[i])
}

/// The byte spelled by a pair of hex digits, high digit first.
pub open spec fn hex_pair_value(hi: char, lo: char) -> u8
    recommends
        is_hex_digit(hi),
        is_hex_digit(lo),
{
    (hex_digit_value(hi).unwrap() * 16 + hex_digit_value(lo).unwrap()) as u8
}

/// The bytes spelled by a valid hex string, pair by pair.
pub open spec fn hex_decoded(s: Seq<char>) -> Seq<u8>
    recommends
        valid_hex(s),
{
    Seq::new(s.len() / 2, |i: int| hex_pair_value(s[2 * i], s[2 * i + 1]))
}

/// The lower-case hex digit for a value below sixteen.
pub open spec fn hex_digit_char(v: u8) -> char
    recommends
        v < 16,
{
    if v < 10 {
        ((v + 48) as u32) as char
    } else {
        ((v + 87) as u32) as char
    }
}

/// The lower-case hex spelling of a byte sequence, two digits per byte, high
/// digit first.
pub open spec fn hex_encoded(b: Seq<u8>) -> Seq<char> {
    Seq::new(
        2 * b.len(),
        |i: int|
            if i % 2 == 0 {
                hex_digit_char(b[i / 2] / 16)
            } else {
                hex_digit_char(b[i / 2] % 16)
            },
    )
}

/// Relies on `hex::decode`: it succeeds exactly on even-length strings of hex
/// digits (either case) and returns the byte each digit pair spells, in
/// order.
#[verifier::external_body]
fn hex_decode(s: &str) -> (r: Option<Vec<u8>>)
    ensures
        r matches Some(v) ==> valid_hex(s@) && v@ == hex_decoded(s@),
        r is None ==> !valid_hex(s@),
{
    hex::decode(s).ok()
}

/// Relies on `hex::encode`: two lower-case digits per byte, high digit first,
/// in order.
#[verifier::external_body]
fn hex_encode(b: &Vec<u8>) -> (r: String)
    ensures
        r@ == hex_encoded(b@),
{
    hex::encode(b)
}

/// A `0x`-optional hex string with the prefix taken off.
pub open spec fn strip_hex_prefix(s: Seq<char>) -> Seq<char> {
    if s.len() >= 2 && s[0] == '0' && s[1] == 'x' {
        s.skip(2)
    } else {
        s
    }
}

/// A byte string an operator typed in hex.
#[derive(Clone, Debug, PartialEq, Eq)]
pub struct HexBytes(Vec<u8>);

impl View for HexBytes {
    type V = Seq<u8>;

    closed spec fn view(&self) -> Seq<u8> {
        self.0@
    }
}

impl HexBytes {
    /// Parse an operator-supplied hex string, with or without a `0x` prefix.
    /// Exactly the even-length all-hex-digit strings (after the optional
    /// prefix) are accepted.
    pub fn from_str(s: &str) -> (r: Option<HexBytes>)
        ensures
            r matches Some(h) ==> valid_hex(strip_hex_prefix(s@)) && h@ == hex_decoded(
                strip_hex_prefix(s@),
            ),
            r is None ==> !valid_hex(strip_hex_prefix(s@)),
    {
        let n = s.unicode_len();
        let rest = if n >= 2 && s.get_char(0) == '0' && s.get_char(1) == 'x' {
            let rest = s.substring_char(2, n);
            proof {
                assert(rest@ =~= s@.skip(2));
            }
            rest
        } else {
            s
        };
        match hex_decode(rest) {
            Some(bytes) => Some(HexBytes(bytes)),
            None => None,
        }
    }

    /// Take a byte string as it stands.
    pub fn from_bytes(bytes: Vec<u8>) -> (r: HexBytes)
        ensures
            r@ == bytes@,
    {
        HexBytes(bytes)
    }

    /// The decoded bytes.
    pub fn into_bytes(self) -> (r: Vec<u8>)
        ensures
            r@ == self@,
    {
        self.0
    }

    /// This byte string, spelled back as `0x` followed by its lower-case hex
    /// digits.
    pub fn to_display_string(&self) -> (r: String)
        ensures
            r@ == "0x"@ + hex_encoded(self@),
    {
        let mut out = String::from_str("0x");
        let digits = hex_encode(&self.0);
        out.append(digits.as_str());
        out
    }
}

/// Law: the hex spelling of a byte string decodes, and decodes to the bytes
/// it spells — display and parsing agree.
pub proof fn lemma_hex_round_trip(b: Seq<u8>)
    ensures
        valid_hex(hex_encoded(b)),
        hex_decoded(hex_encoded(b)) == b,
{
    let enc = hex_encoded(b);
    assert forall|i: int| 0 <= i < enc.len() implies is_hex_digit(#[trigger] enc[i]) by {
        lemma_hex_digit_char_value((if i % 2 == 0 {
            b[i / 2] / 16
        } else {
            b[i / 2] % 16
        }) as u8);
    }
    assert forall|i: int| 0 <= i < b.len() implies hex_decoded(enc)[i] == b[i] by {
        lemma_hex_digit_char_value((b[i] / 16) as u8);
        lemma_hex_digit_char_value((b[i] % 16) as u8);
    }
    assert(hex_decoded(enc) =~= b);
}

/// A hex digit character spells the value it was made from.
proof fn lemma_hex_digit_char_value(v: u8)
    requires
        v < 16,
    ensures
        hex_digit_value(hex_digit_char(v)) == Some(v),
{
}

/// Law: a byte string displayed as hex and parsed back comes back equal —
/// the display form is a faithful spelling of the bytes.
pub fn hex_display_round_trip(h: &HexBytes) -> (r: Option<HexBytes>)
    ensures
        r matches Some(g) && g@ == h@,
{
    let s = h.to_display_string();
    proof {
        reveal_strlit("0x");
        lemma_hex_round_trip(h@);
        assert(strip_hex_prefix(s@) =~= hex_encoded(h@));
    }
    HexBytes::from_str(s.as_str())
}

/// The line the head query prints for the chain head hash: the bare hash in
/// quiet mode, the labelled hash otherwise.
pub fn head_line(quiet: bool, head: &HexBytes) -> (r: String)
    ensures
        quiet ==> r@ == "0x"@ + hex_encoded(head@),
        !quiet ==> r@ == "Chain head: "@ + "0x"@ + hex_encoded(head@),
{
    let hash = head.to_display_string();
    if quiet {
        hash
    } else {
        String::from_str("Chain head: ").concat(hash.as_str())
    }
}

} // verus!
