//! Comparing, copying and converting byte strings and texts.

use vstd::prelude::*;

verus! {

/// Whether two byte strings are equal.
pub fn same_bytes(left: &[u8], right: &[u8]) -> (same: bool)
    ensures
        same == (left@ == right@),
{
    if left.len() != right.len() {
        return false;
    }
    let mut index: usize = 0;
    while index < left.len()
        invariant
            index <= left@.len(),
            left@.len() == right@.len(),
            forall|j: int| 0 <= j < index ==> left@[j] == right@[j],
        decreases left@.len() - index,
    {
        if left[index] != right[index] {
            return false;
        }
        index += 1;
    }
    assert(left@ =~= right@);
    true
}

/// Whether two texts are equal.
pub fn same_text(left: &str, right: &str) -> (same: bool)
    ensures
        same == (left@ == right@),
{
    proof {
        vstd::utf8::encode_utf8_decode_utf8(left@);
        vstd::utf8::encode_utf8_decode_utf8(right@);
    }
    same_bytes(left.as_bytes(), right.as_bytes())
}

/// Whether two 32-byte keys are equal.
pub fn same_key(left: &[u8; 32], right: &[u8; 32]) -> (same: bool)
    ensures
        same == (*left == *right),
        same == (left@ == right@),
{
    let same = same_bytes(left, right);
    if same {
        assert(left@ == right@);
        assert forall|i: int| 0 <= i < 32 implies left[i] == right[i] by {
            assert(left@[i] == right@[i]);
        }
        assert(*left =~= *right);
    }
    same
}

/// Copies a byte string.
pub fn copy_bytes(bytes: &[u8]) -> (copy: Vec<u8>)
    ensures
        copy@ == bytes@,
{
    let mut copy: Vec<u8> = Vec::new();
    let mut index: usize = 0;
    while index < bytes.len()
        invariant
            index <= bytes@.len(),
            copy@ == bytes@.take(index as int),
        decreases bytes@.len() - index,
    {
        copy.push(bytes[index]);
        index += 1;
        assert(copy@ =~= bytes@.take(index as int));
    }
    assert(bytes@.take(index as int) =~= bytes@);
    copy
}

/// The 32-byte key that a byte string spells, if it has exactly that length.
pub fn key_from_bytes(bytes: &[u8]) -> (key: Option<[u8; 32]>)
    ensures
        key is Some <==> bytes@.len() == 32,
        key matches Some(k) ==> k@ == bytes@,
{
    if bytes.len() != 32 {
        return None;
    }
    let mut key: [u8; 32] = [0u8; 32];
    let mut index: usize = 0;
    while index < 32
        invariant
            index <= 32,
            bytes@.len() == 32,
            forall|j: int| 0 <= j < index ==> key@[j] == bytes@[j],
        decreases 32 - index,
    {
        key[index] = bytes[index];
        index += 1;
    }
    assert(key@ =~= bytes@);
    Some(key)
}

/// Whether a key occurs in a list of keys.
pub fn contains_key(keys: &[[u8; 32]], key: &[u8; 32]) -> (found: bool)
    ensures
        found == keys@.contains(*key),
{
    let mut index: usize = 0;
    while index < keys.len()
        invariant
            index <= keys@.len(),
            forall|j: int| 0 <= j < index ==> keys@[j] != *key,
        decreases keys@.len() - index,
    {
        if same_key(&keys[index], key) {
            assert(keys@[index as int] == *key);
            return true;
        }
        index += 1;
    }
    false
}

/// The last `length` bytes of a number in big-endian order.
pub open spec fn big_endian(number: nat, length: nat) -> Seq<u8>
    decreases length,
{
    if length == 0 {
        Seq::empty()
    } else {
        big_endian(number / 256, (length - 1) as nat).push((number % 256) as u8)
    }
}

/// The 16 bytes of a UUID, the most significant first.
pub fn uuid_bytes(uuid: u128) -> (bytes: Vec<u8>)
    ensures
        bytes@ == big_endian(uuid as nat, 16),
{
    let mut reversed: Vec<u8> = Vec::new();
    let mut number: u128 = uuid;
    let mut index: usize = 0;
    while index < 16
        invariant
            index <= 16,
            reversed@.len() == index,
            big_endian(uuid as nat, 16) == big_endian(number as nat, (16 - index) as nat)
                + reversed@.reverse(),
        decreases 16 - index,
    {
        let ghost before = reversed@;
        let ghost number_before = number;
        reversed.push((number % 256) as u8);
        number = number / 256;
        index += 1;
        proof {
            assert(reversed@.reverse() =~= seq![(number_before % 256) as u8] + before.reverse());
            assert(big_endian(number_before as nat, (16 - index + 1) as nat) == big_endian(
                number as nat,
                (16 - index) as nat,
            ).push((number_before % 256) as u8));
            assert(big_endian(number as nat, (16 - index) as nat).push(
                (number_before % 256) as u8,
            ) + before.reverse() =~= big_endian(number as nat, (16 - index) as nat)
                + reversed@.reverse());
        }
    }
    let mut bytes: Vec<u8> = Vec::new();
    proof {
        assert(big_endian(number as nat, 0) + reversed@.reverse() =~= reversed@.reverse());
    }
    let mut next: usize = 0;
    while next < 16
        invariant
            next <= 16,
            reversed@.len() == 16,
            bytes@ == reversed@.reverse().take(next as int),
        decreases 16 - next,
    {
        bytes.push(reversed[15 - next]);
        next += 1;
        assert(bytes@ =~= reversed@.reverse().take(next as int));
    }
    assert(reversed@.reverse().take(16) =~= reversed@.reverse());
    bytes
}

/// Each byte of a UUID is the next of its base-256 digits, the most significant first, and the bytes
/// are sixteen.
pub proof fn law_uuid_bytes_are_its_digits(uuid: u128, bytes: Vec<u8>, at: nat)
    requires
        call_ensures(uuid_bytes, (uuid,), bytes),
    ensures
        bytes@.len() == 16,
        at < 16 ==> bytes@[15 - at] == (uuid as nat / vstd::arithmetic::power::pow(
            256,
            at,
        ) as nat) % 256,
{
    lemma_digits(uuid as nat, 16, at);
}

/// The digits of a number in big-endian order.
proof fn lemma_digits(number: nat, length: nat, at: nat)
    ensures
        big_endian(number, length).len() == length,
        at < length ==> big_endian(number, length)[length - 1 - at] == (number
            / vstd::arithmetic::power::pow(256, at) as nat) % 256,
    decreases length,
{
    reveal(vstd::arithmetic::power::pow);
    if length > 0 {
        let less = (length - 1) as nat;
        if at == 0 {
            lemma_digits(number / 256, less, 0);
            assert(vstd::arithmetic::power::pow(256, 0) == 1);
            assert(number / 1 == number);
        } else {
            let before = (at - 1) as nat;
            lemma_digits(number / 256, less, before);
            vstd::arithmetic::power::lemma_pow_positive(256, before);
            let power = vstd::arithmetic::power::pow(256, before);
            assert(vstd::arithmetic::power::pow(256, at) == 256 * power);
            vstd::arithmetic::div_mod::lemma_div_denominator(number as int, 256, power);
        }
    }
}

/// Copies and comparisons tell of byte strings what they are: a copy is the same as its original, and
/// two strings are the same exactly if they have the same bytes.
pub proof fn law_copies_are_the_same(original: &[u8], copy: Vec<u8>, other: &[u8], same: bool)
    requires
        call_ensures(copy_bytes, (original,), copy),
        call_ensures(same_bytes, (original, other), same),
    ensures
        copy@.len() == original@.len(),
        forall|i: int| 0 <= i < copy@.len() ==> #[trigger] copy@[i] == original@[i],
        same <==> original@.len() == other@.len() && forall|i: int|
            0 <= i < original@.len() ==> #[trigger] original@[i] == other@[i],
{
    if original@.len() == other@.len() && forall|i: int|
        0 <= i < original@.len() ==> #[trigger] original@[i] == other@[i] {
        assert(original@ =~= other@);
    }
}

} // verus!
