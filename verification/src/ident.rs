//! Item identifiers: twelve bytes, written as twenty-four hexadecimal digits.
//!
//! The text form is the one that MongoDB uses for an `ObjectId`. Reading it is
//! left to the `bson` crate; writing it, and numbering the identifiers that an
//! in-memory store hands out, is done here.

use crate::error::ServiceError;
use mongodb::bson::oid::ObjectId;
use vstd::prelude::*;
use vstd::string::*;

verus! {

/// Whether `c` is one of `0`-`9`, `a`-`f` or `A`-`F`.
pub open spec fn is_hex_digit(c: char) -> bool {
    ('0' <= c && c <= '9') || ('a' <= c && c <= 'f') || ('A' <= c && c <= 'F')
}

/// The number that a hexadecimal digit stands for.
pub open spec fn hex_digit_value(c: char) -> int {
    if '0' <= c && c <= '9' {
        c as int - '0' as int
    } else if 'a' <= c && c <= 'f' {
        c as int - 'a' as int + 10
    } else {
        c as int - 'A' as int + 10
    }
}

/// The lower-case hexadecimal digit for a number from 0 to 15.
pub open spec fn hex_digit(value: int) -> char {
    if value < 10 {
        ('0' as int + value) as char
    } else {
        ('a' as int + value - 10) as char
    }
}

/// Whether `text` is the text form of an identifier: exactly twenty-four
/// hexadecimal digits, in either case.
pub open spec fn is_id_text(text: Seq<char>) -> bool {
    &&& text.len() == 24
    &&& forall|i: int| 0 <= i < 24 ==> is_hex_digit(#[trigger] text[i])
}

/// The twelve bytes that a well-formed `text` stands for: each pair of digits
/// is one byte, the first digit its upper half.
pub open spec fn id_of_text(text: Seq<char>) -> Seq<u8> {
    Seq::new(
        12,
        |i: int| (16 * hex_digit_value(text[2 * i]) + hex_digit_value(text[2 * i + 1])) as u8,
    )
}

/// The canonical text form of twelve bytes: two lower-case digits per byte.
pub open spec fn text_of_id(bytes: Seq<u8>) -> Seq<char> {
    Seq::new(
        24,
        |i: int|
            if i % 2 == 0 {
                hex_digit(bytes[i / 2] as int / 16)
            } else {
                hex_digit(bytes[i / 2] as int % 16)
            },
    )
}

/// The `k`-th byte of `n`, counted from the least significant one.
pub open spec fn serial_byte(n: nat, k: nat) -> u8
    decreases k,
{
    if k == 0 {
        (n % 256) as u8
    } else {
        serial_byte(n / 256, (k - 1) as nat)
    }
}

/// The identifier with serial number `n`: four zero bytes, then `n` in eight
/// bytes, most significant first.
pub open spec fn id_of_serial(n: nat) -> Seq<u8> {
    Seq::new(12, |i: int| if i < 4 { 0u8 } else { serial_byte(n, (11 - i) as nat) })
}

/// The number that the last eight bytes of an identifier spell, most
/// significant first. The first four bytes play no part in it.
pub open spec fn serial_of(bytes: Seq<u8>) -> nat {
    (((((((bytes[4] as nat * 256 + bytes[5] as nat) * 256 + bytes[6] as nat) * 256
        + bytes[7] as nat) * 256 + bytes[8] as nat) * 256 + bytes[9] as nat) * 256
        + bytes[10] as nat) * 256 + bytes[11] as nat)
}

/// Reading the canonical text of an identifier gives the identifier back.
pub proof fn lemma_text_round_trip(bytes: Seq<u8>)
    requires
        bytes.len() == 12,
    ensures
        is_id_text(text_of_id(bytes)),
        id_of_text(text_of_id(bytes)) == bytes,
{
    let text = text_of_id(bytes);
    assert forall|i: int| 0 <= i < 24 implies is_hex_digit(#[trigger] text[i]) by {
        let b = bytes[i / 2] as int;
        assert(0 <= b / 16 < 16 && 0 <= b % 16 < 16);
    }
    assert forall|i: int| 0 <= i < 12 implies #[trigger] id_of_text(text)[i] == bytes[i] by {
        let b = bytes[i] as int;
        assert((2 * i) % 2 == 0 && (2 * i) / 2 == i);
        assert((2 * i + 1) % 2 == 1 && (2 * i + 1) / 2 == i);
        assert(text[2 * i] == hex_digit(b / 16));
        assert(text[2 * i + 1] == hex_digit(b % 16));
        assert(hex_digit_value(hex_digit(b / 16)) == b / 16);
        assert(hex_digit_value(hex_digit(b % 16)) == b % 16);
    }
    assert(id_of_text(text) =~= bytes);
}

/// Different identifiers have different canonical texts.
pub proof fn lemma_text_is_injective(first: Seq<u8>, second: Seq<u8>)
    requires
        first.len() == 12,
        second.len() == 12,
        text_of_id(first) == text_of_id(second),
    ensures
        first == second,
{
    lemma_text_round_trip(first);
    lemma_text_round_trip(second);
}

/// The serial number of a numbered identifier is the number it was made from.
pub proof fn lemma_serial_round_trip(n: nat)
    requires
        n <= u64::MAX,
    ensures
        id_of_serial(n).len() == 12,
        serial_of(id_of_serial(n)) == n,
{
    reveal_with_fuel(serial_byte, 8);
    let id = id_of_serial(n);
    let q1 = n / 256;
    let q2 = q1 / 256;
    let q3 = q2 / 256;
    let q4 = q3 / 256;
    let q5 = q4 / 256;
    let q6 = q5 / 256;
    let q7 = q6 / 256;
    assert(q7 < 256);
    assert(id[4] as nat == q7) by {
        assert(id[4] == serial_byte(n, 7));
    }
    assert(id[5] as nat == q6 % 256) by {
        assert(id[5] == serial_byte(n, 6));
    }
    assert(id[6] as nat == q5 % 256) by {
        assert(id[6] == serial_byte(n, 5));
    }
    assert(id[7] as nat == q4 % 256) by {
        assert(id[7] == serial_byte(n, 4));
    }
    assert(id[8] as nat == q3 % 256) by {
        assert(id[8] == serial_byte(n, 3));
    }
    assert(id[9] as nat == q2 % 256) by {
        assert(id[9] == serial_byte(n, 2));
    }
    assert(id[10] as nat == q1 % 256) by {
        assert(id[10] == serial_byte(n, 1));
    }
    assert(id[11] as nat == n % 256) by {
        assert(id[11] == serial_byte(n, 0));
    }
    assert(id[4] as nat * 256 + id[5] as nat == q6);
    assert(q6 * 256 + id[6] as nat == q5);
    assert(q5 * 256 + id[7] as nat == q4);
    assert(q4 * 256 + id[8] as nat == q3);
    assert(q3 * 256 + id[9] as nat == q2);
    assert(q2 * 256 + id[10] as nat == q1);
    assert(q1 * 256 + id[11] as nat == n);
}

/// The identifier of a to-do item.
#[derive(Clone, Copy, Debug, PartialEq, Eq)]
pub struct ItemId {
    pub bytes: [u8; 12],
}

impl View for ItemId {
    type V = Seq<u8>;

    open spec fn view(&self) -> Seq<u8> {
        self.bytes@
    }
}

/// The error of `ObjectId::parse_str`, `bson::oid::Error`. It is declared so
/// that the call can hand it on; nothing is said of what it holds.
#[verifier::external_type_specification]
#[verifier::external_body]
pub struct ExObjectIdError(mongodb::bson::oid::Error);

/// Calls `ObjectId::parse_str` of the `bson` crate and hands out the bytes of
/// the identifier that it built, or its error.
///
/// Not proved, but taken from that function's source: it decodes the text as
/// hexadecimal, two digits per byte, the upper half first and in either case,
/// and succeeds exactly when every character is such a digit and twelve bytes
/// come out.
#[verifier::external_body]
fn parse_object_id(text: &str) -> (parsed: Result<[u8; 12], mongodb::bson::oid::Error>)
    ensures
        parsed is Ok <==> is_id_text(text@),
        parsed matches Ok(bytes) ==> bytes@ == id_of_text(text@),
{
    match ObjectId::parse_str(text) {
        Ok(id) => Ok(id.bytes()),
        Err(error) => Err(error),
    }
}

/// The one-digit string for a number from 0 to 15.
fn hex_digit_str(value: u8) -> (digit: &'static str)
    requires
        value < 16,
    ensures
        digit@ == seq![hex_digit(value as int)],
{
    proof {
        reveal_strlit("0");
        reveal_strlit("1");
        reveal_strlit("2");
        reveal_strlit("3");
        reveal_strlit("4");
        reveal_strlit("5");
        reveal_strlit("6");
        reveal_strlit("7");
        reveal_strlit("8");
        reveal_strlit("9");
        reveal_strlit("a");
        reveal_strlit("b");
        reveal_strlit("c");
        reveal_strlit("d");
        reveal_strlit("e");
        reveal_strlit("f");
    }
    let digit = match value {
        0 => "0",
        1 => "1",
        2 => "2",
        3 => "3",
        4 => "4",
        5 => "5",
        6 => "6",
        7 => "7",
        8 => "8",
        9 => "9",
        10 => "a",
        11 => "b",
        12 => "c",
        13 => "d",
        14 => "e",
        _ => "f",
    };
    assert(digit@ =~= seq![hex_digit(value as int)]);
    digit
}

impl ItemId {
    /// Reads an identifier from its text form. A text that is not twenty-four
    /// hexadecimal digits is refused as `InvalidIdentifier`.
    pub fn parse(text: &str) -> (parsed: Result<ItemId, ServiceError>)
        ensures
            match parsed {
                Ok(id) => is_id_text(text@) && id@ == id_of_text(text@),
                Err(error) => !is_id_text(text@) && error == ServiceError::InvalidIdentifier,
            },
    {
        match parse_object_id(text) {
            Ok(bytes) => Ok(ItemId { bytes }),
            Err(_) => Err(ServiceError::InvalidIdentifier),
        }
    }

    /// Writes the identifier in its canonical text form.
    pub fn to_hex(&self) -> (text: String)
        ensures
            text@ == text_of_id(self@),
    {
        let mut text = String::new();
        let mut i: usize = 0;
        while i < 12
            invariant
                i <= 12,
                text@.len() == 2 * i,
                forall|k: int| 0 <= k < 2 * i ==> text@[k] == text_of_id(self@)[k],
            decreases 12 - i,
        {
            let byte = self.bytes[i];
            text.append(hex_digit_str(byte / 16));
            text.append(hex_digit_str(byte % 16));
            proof {
                assert((2 * i) % 2 == 0 && (2 * i) / 2 == i);
                assert((2 * i + 1) % 2 == 1 && (2 * i + 1) / 2 == i);
            }
            i += 1;
        }
        assert(text@ =~= text_of_id(self@));
        text
    }

    /// The identifier with the given serial number.
    pub fn from_serial(serial: u64) -> (id: ItemId)
        ensures
            id@ == id_of_serial(serial as nat),
    {
        let q1: u64 = serial / 256;
        let q2: u64 = q1 / 256;
        let q3: u64 = q2 / 256;
        let q4: u64 = q3 / 256;
        let q5: u64 = q4 / 256;
        let q6: u64 = q5 / 256;
        let q7: u64 = q6 / 256;
        let bytes: [u8; 12] = [
            0,
            0,
            0,
            0,
            (q7 % 256) as u8,
            (q6 % 256) as u8,
            (q5 % 256) as u8,
            (q4 % 256) as u8,
            (q3 % 256) as u8,
            (q2 % 256) as u8,
            (q1 % 256) as u8,
            (serial % 256) as u8,
        ];
        proof {
            reveal_with_fuel(serial_byte, 8);
            let id = id_of_serial(serial as nat);
            assert(id[4] == bytes@[4] && id[5] == bytes@[5] && id[6] == bytes@[6]);
            assert(id[7] == bytes@[7] && id[8] == bytes@[8] && id[9] == bytes@[9]);
            assert(id[10] == bytes@[10] && id[11] == bytes@[11]);
            assert(bytes@ =~= id);
        }
        ItemId { bytes }
    }

    /// Whether two identifiers are the same twelve bytes.
    pub fn same_as(&self, other: &ItemId) -> (same: bool)
        ensures
            same == (self@ == other@),
    {
        let mut i: usize = 0;
        while i < 12
            invariant
                i <= 12,
                forall|k: int| 0 <= k < i ==> self@[k] == other@[k],
            decreases 12 - i,
        {
            if self.bytes[i] != other.bytes[i] {
                return false;
            }
            i += 1;
        }
        assert(self@ =~= other@);
        true
    }
}

} // verus!
