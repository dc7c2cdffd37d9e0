//! Writing bytes and identities as text.

use vstd::prelude::*;

use crate::bytes::{big_endian, uuid_bytes};

verus! {

/// The digit of a number below sixteen, in lower case.
pub open spec fn hex_digit(number: u8) -> char {
    if number < 10 {
        ('0' as u8 + number) as char
    } else {
        ('a' as u8 + (number - 10)) as char
    }
}

/// Bytes as text: two digits for each, the more significant first.
pub open spec fn lower_hex(bytes: Seq<u8>) -> Seq<char> {
    Seq::new(
        2 * bytes.len(),
        |i: int|
            hex_digit(
                if i % 2 == 0 {
                    bytes[i / 2] / 16
                } else {
                    bytes[i / 2] % 16
                },
            ),
    )
}

/// Calls `hex::encode`, which writes two lower-case digits for each byte.
#[verifier::external_body]
pub(crate) fn hex_encode(bytes: &[u8]) -> (text: String)
    ensures
        text@ == lower_hex(bytes@),
{
    hex::encode(bytes)
}

/// The text of a UUID: its digits in groups of eight, four, four, four and twelve.
pub open spec fn uuid_text_of(uuid: u128) -> Seq<char> {
    let digits = lower_hex(big_endian(uuid as nat, 16));
    digits.subrange(0, 8) + "-"@ + digits.subrange(8, 12) + "-"@ + digits.subrange(12, 16) + "-"@
        + digits.subrange(16, 20) + "-"@ + digits.subrange(20, 32)
}

/// A big-endian number has as many bytes as were asked for.
proof fn lemma_big_endian_length(number: nat, length: nat)
    ensures
        big_endian(number, length).len() == length,
    decreases length,
{
    if length > 0 {
        lemma_big_endian_length(number / 256, (length - 1) as nat);
    }
}

/// Writes a UUID as text.
pub fn uuid_text(uuid: u128) -> (text: String)
    ensures
        text@ == uuid_text_of(uuid),
{
    proof {
        lemma_big_endian_length(uuid as nat, 16);
    }
    let digits = hex_encode(uuid_bytes(uuid).as_slice());
    let digits = digits.as_str();
    let mut text = digits.substring_char(0, 8).to_owned();
    text.append("-");
    text.append(digits.substring_char(8, 12));
    text.append("-");
    text.append(digits.substring_char(12, 16));
    text.append("-");
    text.append(digits.substring_char(16, 20));
    text.append("-");
    text.append(digits.substring_char(20, 32));
    text
}

/// The text of a UUID has its sixteen bytes as two lower-case digits each, the more significant first,
/// with a hyphen behind the fourth, sixth, eighth and tenth byte.
pub proof fn law_uuid_text_spells_its_bytes(uuid: u128, text: String, bytes: Vec<u8>, at: int)
    requires
        call_ensures(uuid_text, (uuid,), text),
        call_ensures(uuid_bytes, (uuid,), bytes),
        0 <= at < 16,
    ensures
        text@.len() == 36,
        text@[8] == '-' && text@[13] == '-' && text@[18] == '-' && text@[23] == '-',
        ({
            let place = if at < 4 {
                2 * at
            } else if at < 6 {
                2 * at + 1
            } else if at < 8 {
                2 * at + 2
            } else if at < 10 {
                2 * at + 3
            } else {
                2 * at + 4
            };
            let high = bytes@[at] / 16;
            let low = bytes@[at] % 16;
            &&& high < 10 ==> text@[place] as int == '0' as int + high
            &&& high >= 10 ==> text@[place] as int == 'a' as int + high - 10
            &&& low < 10 ==> text@[place + 1] as int == '0' as int + low
            &&& low >= 10 ==> text@[place + 1] as int == 'a' as int + low - 10
        }),
{
    lemma_big_endian_length(uuid as nat, 16);
    reveal_strlit("-");
    let digits = lower_hex(bytes@);
    assert(digits.len() == 32);
    assert(digits[2 * at] == hex_digit(bytes@[at] / 16)) by {
        assert((2 * at) / 2 == at && (2 * at) % 2 == 0);
    }
    assert(digits[2 * at + 1] == hex_digit(bytes@[at] % 16)) by {
        assert((2 * at + 1) / 2 == at && (2 * at + 1) % 2 == 1);
    }
}

} // verus!
