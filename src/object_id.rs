//! Item identifiers: twelve raw bytes, written as 24 hexadecimal digits.

use mongodb::bson::oid::ObjectId;
use vstd::prelude::*;

verus! {

/// The failure that the document store's identifier parser reports.
#[verifier::external_type_specification]
#[verifier::external_body]
pub struct ExOidError(mongodb::bson::oid::Error);

/// Number of bytes in an identifier.
pub const ID_LEN: usize = 12;

/// A hexadecimal digit of either case.
pub open spec fn is_hex_digit(c: char) -> bool {
    let v = c as u32;
    (48 <= v && v <= 57) || (97 <= v && v <= 102) || (65 <= v && v <= 70)
}

/// The value, 0 to 15, of a hexadecimal digit.
pub open spec fn hex_value(c: char) -> int {
    let v = c as u32;
    if v <= 57 {
        v - 48
    } else if v >= 97 {
        v - 87
    } else {
        v - 55
    }
}

/// The lowercase digit that writes `v`, for `0 <= v < 16`.
pub open spec fn hex_digit(v: int) -> char {
    if v < 10 {
        (v + 48) as char
    } else {
        (v + 87) as char
    }
}

/// Text that spells an identifier: exactly 24 hexadecimal digits.
pub open spec fn is_id_text(s: Seq<char>) -> bool {
    s.len() == 2 * ID_LEN && forall|i: int| 0 <= i < s.len() ==> is_hex_digit(#[trigger] s[i])
}

/// The bytes that identifier text spells, high digit first in each pair.
pub open spec fn id_bytes_of(s: Seq<char>) -> Seq<u8> {
    Seq::new(ID_LEN as nat, |i: int| (hex_value(s[2 * i]) * 16 + hex_value(s[2 * i + 1])) as u8)
}

/// The lowercase hexadecimal text of a byte sequence, two digits per byte.
pub open spec fn hex_text(b: Seq<u8>) -> Seq<char> {
    Seq::new(
        2 * b.len(),
        |i: int|
            if i % 2 == 0 {
                hex_digit(b[i / 2] as int / 16)
            } else {
                hex_digit(b[i / 2] as int % 16)
            },
    )
}

/// Relies on bson's `ObjectId::parse_str`: 24 hexadecimal digits of either
/// case give the 12 bytes they spell, any other text gives an error.
#[verifier::external_body]
fn parse_object_id(s: &str) -> (r: Result<[u8; 12], mongodb::bson::oid::Error>)
    ensures
        r.is_ok() <==> is_id_text(s@),
        r matches Ok(b) ==> b@ == id_bytes_of(s@),
{
    ObjectId::parse_str(s).map(|o| o.bytes())
}

/// Relies on bson's `ObjectId::to_hex`: two lowercase hexadecimal digits per
/// byte, high digit first.
#[verifier::external_body]
fn object_id_hex(b: [u8; 12]) -> (r: String)
    ensures
        r@ == hex_text(b@),
{
    ObjectId::from_bytes(b).to_hex()
}

/// The identifier of a stored item.
pub struct TodoId {
    pub bytes: [u8; 12],
}

impl View for TodoId {
    type V = Seq<u8>;

    open spec fn view(&self) -> Seq<u8> {
        self.bytes@
    }
}

impl TodoId {
    /// Reads an identifier from its text; `None` unless the text is
    /// exactly 24 hexadecimal digits.
    pub fn parse(s: &str) -> (r: Option<TodoId>)
        ensures
            r.is_some() <==> is_id_text(s@),
            r matches Some(id) ==> id@ == id_bytes_of(s@),
    {
        match parse_object_id(s) {
            Ok(bytes) => Some(TodoId { bytes }),
            Err(_) => None,
        }
    }

    /// The identifier as 24 lowercase hexadecimal digits.
    pub fn to_hex(&self) -> (r: String)
        ensures
            r@ == hex_text(self@),
    {
        object_id_hex(self.bytes)
    }

    /// Whether two identifiers are the same bytes.
    pub fn same_as(&self, other: &TodoId) -> (r: bool)
        ensures
            r == (self@ == other@),
    {
        let mut i: usize = 0;
        while i < ID_LEN
            invariant
                i <= ID_LEN,
                self@.len() == ID_LEN,
                other@.len() == ID_LEN,
                forall|j: int| 0 <= j < i ==> self@[j] == other@[j],
            decreases ID_LEN - i,
        {
            if self.bytes[i] != other.bytes[i] {
                return false;
            }
            i = i + 1;
        }
        assert(self@ =~= other@);
        true
    }

    /// A copy of the identifier.
    pub fn copied(&self) -> (r: TodoId)
        ensures
            r@ == self@,
    {
        TodoId { bytes: self.bytes }
    }
}

proof fn lemma_hex_digit(v: int)
    requires
        0 <= v < 16,
    ensures
        is_hex_digit(hex_digit(v)),
        hex_value(hex_digit(v)) == v,
{
}

/// Writing an identifier as text and reading the text back gives the same
/// identifier.
pub proof fn lemma_hex_round_trip(b: Seq<u8>)
    requires
        b.len() == ID_LEN,
    ensures
        is_id_text(hex_text(b)),
        id_bytes_of(hex_text(b)) == b,
{
    let t = hex_text(b);
    assert forall|i: int| 0 <= i < t.len() implies is_hex_digit(#[trigger] t[i]) by {
        lemma_hex_digit(b[i / 2] as int / 16);
        lemma_hex_digit(b[i / 2] as int % 16);
    }
    assert forall|i: int| 0 <= i < ID_LEN implies #[trigger] id_bytes_of(t)[i] == b[i] by {
        let x = b[i] as int;
        lemma_hex_digit(x / 16);
        lemma_hex_digit(x % 16);
        assert((2 * i) / 2 == i && (2 * i + 1) / 2 == i);
        assert((2 * i) % 2 == 0 && (2 * i + 1) % 2 == 1);
        assert(x / 16 * 16 + x % 16 == x);
    }
    assert(id_bytes_of(t) =~= b);
}

} // verus!
