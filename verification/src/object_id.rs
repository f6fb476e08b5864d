//! Identifiers of stored records: twelve raw bytes, written as 24 hex digits.

use vstd::prelude::*;
use mongodb::bson::oid::ObjectId;

verus! {

/// Identifier of a stored record (the raw bytes of a database object id).
#[derive(Clone, Copy, Debug, PartialEq, Eq)]
pub struct RecordId {
    pub bytes: [u8; 12],
}

pub open spec fn is_hex_digit(c: char) -> bool {
    ||| ('0' <= c && c <= '9')
    ||| ('a' <= c && c <= 'f')
    ||| ('A' <= c && c <= 'F')
}

/// Value of a hex digit, in either case.
pub open spec fn hex_value(c: char) -> int {
    if '0' <= c && c <= '9' {
        (c as int) - ('0' as int)
    } else if 'a' <= c && c <= 'f' {
        (c as int) - ('a' as int) + 10
    } else {
        (c as int) - ('A' as int) + 10
    }
}

/// Text that names a record: exactly 24 hex digits.
pub open spec fn is_record_id_text(s: Seq<char>) -> bool {
    &&& s.len() == 24
    &&& forall|i: int| 0 <= i < 24 ==> #[trigger] is_hex_digit(s[i])
}

/// The bytes that 24 hex digits stand for, two digits per byte, high digit first.
pub open spec fn record_id_bytes(s: Seq<char>) -> Seq<u8> {
    Seq::new(12, |i: int| (hex_value(s[2 * i]) * 16 + hex_value(s[2 * i + 1])) as u8)
}

/// Parse of record id text: `Some` bytes exactly for 24 hex digits.
pub open spec fn parse_record_id_spec(s: Seq<char>) -> Option<Seq<u8>> {
    if is_record_id_text(s) {
        Some(record_id_bytes(s))
    } else {
        None
    }
}

/// Lower-case hex digit for a value below 16.
pub open spec fn hex_digit_char(v: int) -> char {
    seq!['0', '1', '2', '3', '4', '5', '6', '7', '8', '9', 'a', 'b', 'c', 'd', 'e', 'f'][v]
}

/// The digit itself for a lower-case hex digit, the lower-case digit for an upper-case one.
pub open spec fn lower_hex_digit(c: char) -> char {
    if 'A' <= c && c <= 'F' {
        hex_digit_char(hex_value(c))
    } else {
        c
    }
}

/// Lower-case hex text of bytes, two digits per byte, high digit first.
pub open spec fn hex_text(b: Seq<u8>) -> Seq<char> {
    Seq::new(2 * b.len(), |i: int|
        if i % 2 == 0 {
            hex_digit_char(b[i / 2] as int / 16)
        } else {
            hex_digit_char(b[i / 2] as int % 16)
        })
}

/// `ObjectId::parse_str` of the bson crate (which decodes with the `hex`
/// crate): accepts exactly 24 hex digits of either case and gives the bytes
/// they encode, two digits per byte.
#[verifier::external_body]
fn object_id_parse_str(s: &str) -> (res: Option<[u8; 12]>)
    ensures
        res matches Some(b) ==> parse_record_id_spec(s@) == Some(b@),
        res is None ==> parse_record_id_spec(s@) is None,
{
    match ObjectId::parse_str(s) {
        Ok(oid) => Some(oid.bytes()),
        Err(_) => None,
    }
}

/// `ObjectId::to_hex` of the bson crate: `hex::encode` of the twelve bytes,
/// lower-case digits, high digit first.
#[verifier::external_body]
fn object_id_to_hex(b: [u8; 12]) -> (res: String)
    ensures
        res@ == hex_text(b@),
{
    ObjectId::from_bytes(b).to_hex()
}

proof fn lemma_hex_digit_char(v: int)
    requires
        0 <= v < 16,
    ensures
        is_hex_digit(hex_digit_char(v)),
        hex_value(hex_digit_char(v)) == v,
        !('A' <= hex_digit_char(v) && hex_digit_char(v) <= 'F'),
{
}

proof fn lemma_lower_hex_digit(c: char)
    requires
        is_hex_digit(c),
    ensures
        lower_hex_digit(c) == hex_digit_char(hex_value(c)),
        0 <= hex_value(c) < 16,
{
    if !('A' <= c && c <= 'F') {
        assert(c == hex_digit_char(hex_value(c))) by {
            assert(c == '0' || c == '1' || c == '2' || c == '3' || c == '4' || c == '5' || c == '6'
                || c == '7' || c == '8' || c == '9' || c == 'a' || c == 'b' || c == 'c' || c == 'd'
                || c == 'e' || c == 'f');
        }
    }
}

/// Writing an identifier as text and reading it back gives the same bytes.
pub proof fn lemma_hex_text_parses_back(b: Seq<u8>)
    requires
        b.len() == 12,
    ensures
        parse_record_id_spec(hex_text(b)) == Some(b),
{
    let t = hex_text(b);
    assert forall|i: int| 0 <= i < 24 implies #[trigger] is_hex_digit(t[i]) by {
        lemma_hex_digit_char(b[i / 2] as int / 16);
        lemma_hex_digit_char(b[i / 2] as int % 16);
    }
    assert forall|i: int| 0 <= i < 12 implies #[trigger] record_id_bytes(t)[i] == b[i] by {
        assert((2 * i) / 2 == i && (2 * i + 1) / 2 == i && (2 * i) % 2 == 0 && (2 * i + 1) % 2 == 1);
        lemma_hex_digit_char(b[i] as int / 16);
        lemma_hex_digit_char(b[i] as int % 16);
    }
    assert(record_id_bytes(t) =~= b);
}

/// Reading identifier text and writing it back gives the same text, with
/// upper-case digits turned to lower case.
pub proof fn lemma_parsed_text_prints_back(s: Seq<char>)
    requires
        is_record_id_text(s),
    ensures
        hex_text(record_id_bytes(s)) == s.map_values(|c: char| lower_hex_digit(c)),
{
    let b = record_id_bytes(s);
    let l = s.map_values(|c: char| lower_hex_digit(c));
    assert forall|i: int| 0 <= i < 24 implies #[trigger] hex_text(b)[i] == l[i] by {
        let k = i / 2;
        assert(is_hex_digit(s[2 * k]) && is_hex_digit(s[2 * k + 1]));
        lemma_lower_hex_digit(s[2 * k]);
        lemma_lower_hex_digit(s[2 * k + 1]);
        let hi = hex_value(s[2 * k]);
        let lo = hex_value(s[2 * k + 1]);
        assert(b[k] as int == hi * 16 + lo);
        assert((hi * 16 + lo) / 16 == hi && (hi * 16 + lo) % 16 == lo) by (nonlinear_arith)
            requires 0 <= hi < 16, 0 <= lo < 16;
    }
    assert(hex_text(b) =~= l);
}

/// `ObjectId::new` of the bson crate: a new identifier made of the clock,
/// a per-process random value and a counter. Nothing is stated about the
/// bytes.
#[verifier::external_body]
fn object_id_new() -> (res: [u8; 12]) {
    ObjectId::new().bytes()
}

impl RecordId {
    /// The identifier named by `s` where it is 24 hex digits; otherwise a
    /// newly made identifier (which names no stored record).
    pub fn lookup_key(s: &str) -> (res: RecordId)
        ensures
            parse_record_id_spec(s@) matches Some(b) ==> res.bytes@ == b,
    {
        match object_id_parse_str(s) {
            Some(b) => RecordId { bytes: b },
            None => RecordId { bytes: object_id_new() },
        }
    }

    /// Parses 24 hex digits (either case) into an identifier.
    pub fn parse(s: &str) -> (res: Option<RecordId>)
        ensures
            res matches Some(r) ==> parse_record_id_spec(s@) == Some(r.bytes@),
            res is None ==> parse_record_id_spec(s@) is None,
    {
        match object_id_parse_str(s) {
            Some(b) => Some(RecordId { bytes: b }),
            None => None,
        }
    }

    /// The identifier as 24 lower-case hex digits.
    pub fn to_hex(&self) -> (res: String)
        ensures
            res@ == hex_text(self.bytes@),
    {
        object_id_to_hex(self.bytes)
    }
}

} // verus!
