use vstd::prelude::*;

verus! {

/// An account's identifier: the 128 bits of a UUID.
pub type UserId = u128;

/// The error of `uuid`, carried through and never looked into.
#[verifier::external_type_specification]
#[verifier::external_body]
pub struct ExUuidError(uuid::Error);

/// The character of a hexadecimal digit, in lower case.
pub open spec fn hex_digit(value: u128) -> char {
    if value < 10 {
        ((48 + value) as u8) as char
    } else {
        ((87 + value) as u8) as char
    }
}

/// The hexadecimal digit of an identifier at a place, counted from the
/// most significant digit, place 0, to the least significant, place 31.
pub open spec fn uuid_digit(id: u128, place: int) -> u128 {
    (id >> ((4 * (31 - place)) as u128)) & 0xf
}

/// How many hyphens stand before a position of the canonical text.
pub open spec fn hyphens_before(position: int) -> int {
    if position > 23 {
        4
    } else if position > 18 {
        3
    } else if position > 13 {
        2
    } else if position > 8 {
        1
    } else {
        0
    }
}

/// The canonical text of an identifier: its 32 hexadecimal digits in lower
/// case, most significant first, in groups of 8, 4, 4, 4 and 12 digits
/// with a hyphen between groups.
pub open spec fn uuid_text(id: u128) -> Seq<char> {
    Seq::new(
        36,
        |position: int|
            if position == 8 || position == 13 || position == 18 || position == 23 {
                '-'
            } else {
                hex_digit(uuid_digit(id, position - hyphens_before(position)))
            },
    )
}

/// What `Uuid::parse_str` makes of a text: the 128 bits of the UUID it reads,
/// or `None` where it reports an error.
pub uninterp spec fn uuid_parsed(text: Seq<char>) -> Option<u128>;

/// Whether an identifier has the shape of a random (version 4) UUID: the
/// version field holds 4 and the variant field the two bits `10`.
pub open spec fn is_random_uuid(id: u128) -> bool {
    (id >> 76) & 0xf == 4 && (id >> 62) & 0x3 == 2
}

/// Draws a random UUID with `Uuid::new_v4`. Which one is drawn is open;
/// whichever it is, it has the version and variant of a random UUID.
#[verifier::external_body]
pub(crate) fn random_user_id() -> (id: UserId)
    ensures
        is_random_uuid(id),
{
    uuid::Uuid::new_v4().as_u128()
}

/// Prints an identifier with `Uuid`'s `Display`, which writes the UUID of
/// `Uuid::from_u128(id)` in lower-case hexadecimal with hyphens. The result
/// is the canonical text, and `Uuid::parse_str` reads that text back as the
/// same identifier, as the crate documents of every format it prints.
#[verifier::external_body]
fn format_uuid(id: UserId) -> (text: String)
    ensures
        text@ == uuid_text(id),
        uuid_parsed(text@) == Some(id),
{
    uuid::Uuid::from_u128(id).to_string()
}

/// The canonical text of an identifier. Reading the text gives the
/// identifier back.
pub fn user_id_text(id: UserId) -> (text: String)
    ensures
        text@ == uuid_text(id),
        uuid_parsed(text@) == Some(id),
{
    format_uuid(id)
}

/// Reads an identifier with `Uuid::parse_str`.
#[verifier::external_body]
fn parse_uuid(text: &str) -> (parsed: Result<UserId, uuid::Error>)
    ensures
        parsed matches Ok(id) ==> uuid_parsed(text@) == Some(id),
        parsed is Err ==> uuid_parsed(text@) is None,
{
    match uuid::Uuid::parse_str(text) {
        Ok(uuid) => Ok(uuid.as_u128()),
        Err(fault) => Err(fault),
    }
}

/// Reads an identifier from text in any of the shapes a UUID is written in.
pub fn parse_user_id(text: &str) -> (parsed: Option<UserId>)
    ensures
        parsed == uuid_parsed(text@),
{
    match parse_uuid(text) {
        Ok(id) => Some(id),
        Err(_) => None,
    }
}

} // verus!
