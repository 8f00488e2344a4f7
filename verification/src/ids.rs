use vstd::prelude::*;

verus! {

/// A 12-byte object identifier, kept as the big-endian halves of its byte
/// string: `hi` holds the first four bytes, `lo` the last eight.
#[derive(Clone, Copy, PartialEq, Eq, Structural, Debug, Hash)]
pub struct Oid {
    pub hi: u32,
    pub lo: u64,
}

/// A 128-bit user identifier, kept as the big-endian halves of its byte string.
#[derive(Clone, Copy, PartialEq, Eq, Structural, Debug, Hash)]
pub struct Uid {
    pub hi: u64,
    pub lo: u64,
}

/// The lowercase hexadecimal digit for a nibble.
pub open spec fn nibble_char(n: u8) -> char {
    if n == 0 {
        '0'
    } else if n == 1 {
        '1'
    } else if n == 2 {
        '2'
    } else if n == 3 {
        '3'
    } else if n == 4 {
        '4'
    } else if n == 5 {
        '5'
    } else if n == 6 {
        '6'
    } else if n == 7 {
        '7'
    } else if n == 8 {
        '8'
    } else if n == 9 {
        '9'
    } else if n == 10 {
        'a'
    } else if n == 11 {
        'b'
    } else if n == 12 {
        'c'
    } else if n == 13 {
        'd'
    } else if n == 14 {
        'e'
    } else {
        'f'
    }
}

/// The `i`-th nibble (most significant first) of the 12-byte identifier
/// whose halves are `hi` and `lo`.
pub open spec fn oid_nibble(hi: u32, lo: u64, i: int) -> u8 {
    if i < 8 {
        ((hi >> ((28 - 4 * i) as u32)) & 0xf) as u8
    } else {
        ((lo >> ((60 - 4 * (i - 8)) as u64)) & 0xf) as u8
    }
}

/// The 24-character lowercase hexadecimal rendering of an identifier,
/// most significant nibble first.
pub open spec fn oid_hex(o: Oid) -> Seq<char> {
    Seq::new(24, |i: int| nibble_char(oid_nibble(o.hi, o.lo, i)))
}

/// Relies on `mongodb::bson::oid::ObjectId::to_hex`: the identifier's twelve
/// bytes rendered as twenty-four lowercase hexadecimal digits, most
/// significant nibble first.
#[verifier::external_body]
pub(crate) fn oid_to_hex(o: &Oid) -> (r: String)
    ensures
        r@ == oid_hex(*o),
{
    let mut bytes = [0u8; 12];
    bytes[..4].copy_from_slice(&o.hi.to_be_bytes());
    bytes[4..].copy_from_slice(&o.lo.to_be_bytes());
    mongodb::bson::oid::ObjectId::from_bytes(bytes).to_hex()
}

} // verus!
