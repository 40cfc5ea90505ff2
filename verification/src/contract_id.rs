//! Contract identifiers: thirty-two bytes, written as sixty-four hex digits.

use vstd::prelude::*;
use std::str::FromStr;
use fuels::types::ContractId;

verus! {

/// The bytes in a contract identifier.
pub const CONTRACT_ID_BYTES: usize = 32;

/// The value of a hex digit, of either case.
pub open spec fn hex_value(digit: char) -> Option<int> {
    if '0' <= digit <= '9' {
        Some(digit as int - '0' as int)
    } else if 'a' <= digit <= 'f' {
        Some(digit as int - 'a' as int + 10)
    } else if 'A' <= digit <= 'F' {
        Some(digit as int - 'A' as int + 10)
    } else {
        None
    }
}

/// `text` without one leading `0x`, if it has one.
pub open spec fn without_prefix(text: Seq<char>) -> Seq<char> {
    if text.len() >= 2 && text[0] == '0' && text[1] == 'x' {
        text.subrange(2, text.len() as int)
    } else {
        text
    }
}

/// The byte that two hex digits write, the high one first.
pub open spec fn hex_byte(high: char, low: char) -> u8 {
    (16 * hex_value(high)->0 + hex_value(low)->0) as u8
}

/// The identifier that `text` writes: after an optional `0x`, exactly
/// sixty-four hex digits, two for each byte. Any other text writes none.
pub open spec fn contract_id_bytes(text: Seq<char>) -> Option<Seq<u8>> {
    let digits = without_prefix(text);
    if digits.len() == 2 * CONTRACT_ID_BYTES && forall|i: int|
        0 <= i < digits.len() ==> hex_value(#[trigger] digits[i]) is Some {
        Some(Seq::new(CONTRACT_ID_BYTES as nat, |i: int| hex_byte(digits[2 * i], digits[2 * i + 1])))
    } else {
        None
    }
}

/// Calls `ContractId::from_str` of `fuels`, which drops one leading `0x` and
/// decodes what is left as hex into thirty-two bytes. Trusted: it accepts
/// exactly the texts described by [`contract_id_bytes`], and gives those
/// bytes.
#[verifier::external_body]
pub(crate) fn parse_contract_id(text: &str) -> (id: Option<[u8; 32]>)
    ensures
        match id {
            Some(bytes) => contract_id_bytes(text@) == Some(bytes@),
            None => contract_id_bytes(text@) is None,
        },
{
    match ContractId::from_str(text) {
        Ok(id) => Some(id.into()),
        Err(_) => None,
    }
}

} // verus!
