use vstd::prelude::*;

verus! {

/// The lower-case hexadecimal digit for a value below sixteen.
pub open spec fn hex_digit(n: nat) -> char {
    seq!['0', '1', '2', '3', '4', '5', '6', '7', '8', '9', 'a', 'b', 'c', 'd', 'e', 'f'][(n
        % 16) as int]
}

/// The `width` least significant hexadecimal digits of `v`, most significant
/// first, padded with zeros on the left.
pub open spec fn hex_digits(v: nat, width: nat) -> Seq<char>
    decreases width,
{
    if width == 0 {
        Seq::empty()
    } else {
        hex_digits(v / 16, (width - 1) as nat).push(hex_digit(v % 16))
    }
}

/// A 64-bit value as sixteen lower-case hexadecimal digits.
pub open spec fn hex16(v: u64) -> Seq<char> {
    hex_digits(v as nat, 16)
}

/// Every byte as two lower-case hexadecimal digits, in the order of the bytes.
pub open spec fn bytes_hex(bytes: Seq<u8>) -> Seq<char>
    decreases bytes.len(),
{
    if bytes.len() == 0 {
        Seq::empty()
    } else {
        bytes_hex(bytes.drop_last()) + hex_digits(bytes.last() as nat, 2)
    }
}

/// Formats with std's `{:016x}`: lower-case hexadecimal, zero padded to
/// sixteen digits, which a 64-bit value never exceeds.
#[verifier::external_body]
pub(crate) fn format_hex16(v: u64) -> (s: String)
    ensures
        s@ == hex16(v),
{
    format!("{:016x}", v)
}

/// Calls `kaspa_utils::hex::ToHex::to_hex` on a byte slice, which encodes each
/// byte as two lower-case hexadecimal digits and an empty slice as the empty
/// string.
#[verifier::external_body]
pub(crate) fn to_hex(bytes: &[u8]) -> (s: String)
    ensures
        s@ == bytes_hex(bytes@),
{
    kaspa_utils::hex::ToHex::to_hex(&bytes)
}

} // verus!
