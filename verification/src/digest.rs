//! The digest by which the guest addresses content: the 64-bit FNV-1a hash
//! of the text's UTF-8 bytes, written as sixteen lower-case hexadecimal
//! digits.

use vstd::prelude::*;
use vstd::string::StringSliceAdditionalSpecFns;
use vstd::utf8::encode_utf8;

verus! {

/// Where the hash starts.
pub const FNV_OFFSET_BASIS: u64 = 0xcbf2_9ce4_8422_2325;

/// What each step multiplies by.
pub const FNV_PRIME: u64 = 0x0000_0100_0000_01b3;

/// The hash after one more byte.
pub open spec fn fnv1a_step(hash: u64, byte: u8) -> u64 {
    (((hash ^ (byte as u64)) * FNV_PRIME) % 0x1_0000_0000_0000_0000) as u64
}

/// The 64-bit FNV-1a hash of `bytes`.
pub open spec fn fnv1a(bytes: Seq<u8>) -> u64
    decreases bytes.len(),
{
    if bytes.len() == 0 {
        FNV_OFFSET_BASIS
    } else {
        fnv1a_step(fnv1a(bytes.drop_last()), bytes.last())
    }
}

/// The hexadecimal digit for a value below sixteen.
pub open spec fn hex_digit(value: nat) -> char {
    seq!['0', '1', '2', '3', '4', '5', '6', '7', '8', '9', 'a', 'b', 'c', 'd', 'e', 'f'][value as int]
}

/// The last `digits` hexadecimal digits of `value`, the most significant
/// first.
pub open spec fn hex(value: nat, digits: nat) -> Seq<char>
    decreases digits,
{
    if digits == 0 {
        Seq::empty()
    } else {
        hex(value / 16, (digits - 1) as nat).push(hex_digit(value % 16))
    }
}

/// The digest of a text.
pub open spec fn digest_of(data: Seq<char>) -> Seq<char> {
    hex(fnv1a(encode_utf8(data)) as nat, 16)
}

/// A digest has sixteen digits.
pub proof fn lemma_hex_len(value: nat, digits: nat)
    ensures
        hex(value, digits).len() == digits,
    decreases digits,
{
    if digits > 0 {
        lemma_hex_len(value / 16, (digits - 1) as nat);
    }
}

/// The 64-bit FNV-1a hash of `bytes`.
pub fn hash_bytes(bytes: &[u8]) -> (hash: u64)
    ensures
        hash == fnv1a(bytes@),
{
    let mut hash: u64 = FNV_OFFSET_BASIS;
    let mut i: usize = 0;
    while i < bytes.len()
        invariant
            i <= bytes@.len(),
            hash == fnv1a(bytes@.take(i as int)),
        decreases bytes@.len() - i,
    {
        proof {
            assert(bytes@.take(i + 1).drop_last() =~= bytes@.take(i as int));
            assert(bytes@.take(i + 1).last() == bytes@[i as int]);
        }
        hash = (hash ^ (bytes[i] as u64)).wrapping_mul(FNV_PRIME);
        i += 1;
    }
    assert(bytes@.take(i as int) =~= bytes@);
    hash
}

/// The text of one hexadecimal digit.
fn digit_text(value: u8) -> (r: &'static str)
    requires
        value < 16,
    ensures
        r@ == seq![hex_digit(value as nat)],
{
    proof {
        reveal_strlit("0");
        reveal_strlit("1");
        reveal_strlit("2");
        reveal_strlit("3");
        reveal_strlit("4");
        reveal_strlit("5");
        reveal_strlit("6");
        reveal_strlit("7");
        reveal_strlit("8");
        reveal_strlit("9");
        reveal_strlit("a");
        reveal_strlit("b");
        reveal_strlit("c");
        reveal_strlit("d");
        reveal_strlit("e");
        reveal_strlit("f");
    }
    let r = match value {
        0 => "0",
        1 => "1",
        2 => "2",
        3 => "3",
        4 => "4",
        5 => "5",
        6 => "6",
        7 => "7",
        8 => "8",
        9 => "9",
        10 => "a",
        11 => "b",
        12 => "c",
        13 => "d",
        14 => "e",
        _ => "f",
    };
    assert(r@ =~= seq![hex_digit(value as nat)]);
    r
}

/// `hash` as sixteen hexadecimal digits.
pub fn hex_text(hash: u64) -> (text: String)
    ensures
        text@ == hex(hash as nat, 16),
{
    // The digits, the least significant first.
    let mut low_first: Vec<u8> = Vec::new();
    let mut rest: u64 = hash;
    let ghost mut tail: Seq<char> = Seq::empty();
    while low_first.len() < 16
        invariant
            low_first@.len() <= 16,
            tail.len() == low_first@.len(),
            forall|k: int| 0 <= k < low_first@.len() ==> low_first@[k] < 16,
            forall|k: int|
                0 <= k < low_first@.len() ==> tail[tail.len() - 1 - k] == hex_digit(
                    #[trigger] low_first@[k] as nat,
                ),
            hex(hash as nat, 16) == hex(rest as nat, (16 - low_first@.len()) as nat) + tail,
        decreases 16 - low_first@.len(),
    {
        let digit: u8 = (rest % 16) as u8;
        proof {
            let before = tail;
            tail = seq![hex_digit(digit as nat)] + before;
            assert(hex(rest as nat, (16 - low_first@.len()) as nat) + before =~= hex(
                (rest / 16) as nat,
                (16 - low_first@.len() - 1) as nat,
            ) + tail);
            assert forall|k: int| 0 <= k < low_first@.len() implies tail[tail.len() - 1 - k]
                == hex_digit(#[trigger] low_first@[k] as nat) by {
                assert(tail[tail.len() - 1 - k] == before[before.len() - 1 - k]);
            }
        }
        low_first.push(digit);
        rest = rest / 16;
    }
    assert(hex(hash as nat, 16) =~= tail);
    let mut text = String::new();
    let mut i: usize = 16;
    while i > 0
        invariant
            i <= 16,
            low_first@.len() == 16,
            tail.len() == 16,
            forall|k: int| 0 <= k < 16 ==> low_first@[k] < 16,
            forall|k: int| 0 <= k < 16 ==> tail[15 - k] == hex_digit(#[trigger] low_first@[k] as nat),
            text@ == tail.take(16 - i),
        decreases i,
    {
        i -= 1;
        text.append(digit_text(low_first[i]));
        assert(text@ =~= tail.take(16 - i));
    }
    assert(tail.take(16) =~= tail);
    text
}

/// The digest of `data`.
pub fn digest(data: &str) -> (text: String)
    ensures
        text@ == digest_of(data@),
{
    hex_text(hash_bytes(data.as_bytes()))
}

} // verus!
