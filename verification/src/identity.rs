//! Identities of connections.

use vstd::prelude::*;

verus! {

/// The character of a hexadecimal digit, in lower case.
pub open spec fn hex_char(d: u128) -> char {
    if d < 10 {
        ('0' as int + d) as char
    } else {
        ('a' as int + d - 10) as char
    }
}

/// Hexadecimal digit `i` of `value`, counted from the most significant of 32.
pub open spec fn hex_digit(value: u128, i: int) -> char {
    hex_char((value >> ((4 * (31 - i)) as u128)) & 0xf)
}

/// The number of digits that precede position `i` of the hyphenated form.
pub open spec fn digits_before(i: int) -> int {
    if i < 8 {
        i
    } else if i < 13 {
        i - 1
    } else if i < 18 {
        i - 2
    } else if i < 23 {
        i - 3
    } else {
        i - 4
    }
}

/// The hyphenated form of a UUID: its 32 hexadecimal digits in groups of eight,
/// four, four, four and twelve, joined by hyphens.
pub open spec fn hyphenated(value: u128) -> Seq<char> {
    Seq::new(
        36,
        |i: int|
            if i == 8 || i == 13 || i == 18 || i == 23 {
                '-'
            } else {
                hex_digit(value, digits_before(i))
            },
    )
}

/// The version and variant bits mark `value` as a random UUID.
pub open spec fn is_random_uuid(value: u128) -> bool {
    (value >> 76u128) & 0xf == 4 && (value >> 62u128) & 0x3 == 2
}

/// `uuid::Uuid::new_v4`: a random UUID, as a number. All but the version and
/// variant bits are left to chance.
#[verifier::external_body]
fn random_uuid() -> (value: u128)
    ensures
        is_random_uuid(value),
{
    uuid::Uuid::new_v4().as_u128()
}

/// The `Display` form of `uuid::Uuid`: the hyphenated form, in lower case.
#[verifier::external_body]
fn uuid_text(value: u128) -> (text: String)
    ensures
        text@ == hyphenated(value),
{
    uuid::Uuid::from_u128(value).to_string()
}

/// The identity of a client connection.
#[derive(Clone, Copy, Debug, PartialEq, Eq, Structural)]
pub struct ConnectionId {
    pub value: u128,
}

impl ConnectionId {
    /// A fresh identity.
    pub fn random() -> (id: ConnectionId)
        ensures
            is_random_uuid(id.value),
    {
        ConnectionId { value: random_uuid() }
    }

    /// The activity id under which what concerns the connection as a whole is
    /// reported.
    pub fn activity_id(&self) -> (text: String)
        ensures
            text@ == hyphenated(self.value),
    {
        uuid_text(self.value)
    }
}

} // verus!
