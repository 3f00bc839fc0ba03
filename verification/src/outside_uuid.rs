//! The calls into the `uuid` crate. A UUID is carried as the 128-bit number whose
//! big-endian bytes are the UUID's bytes.

use uuid::Uuid;
use vstd::prelude::*;

use crate::text::hex_digits;

verus! {

/// `uuid::Uuid`.
#[verifier::external_type_specification]
#[verifier::external_body]
pub struct ExUuid(uuid::Uuid);

/// The 128-bit number that a UUID holds: what `Uuid::as_u128` returns.
pub uninterp spec fn uuid_value(uuid: Uuid) -> u128;

/// What `Uuid::parse_str` makes of a text: the number of the UUID, or the wording of
/// its error.
pub uninterp spec fn uuid_parse(text: Seq<char>) -> Result<u128, Seq<char>>;

/// The hyphenated lower-case form of a UUID: its 32 hexadecimal digits in groups of
/// 8, 4, 4, 4 and 12.
pub open spec fn hyphenated_text(value: u128) -> Seq<char> {
    let h = hex_digits(value as nat, 32);
    h.subrange(0, 8).push('-') + h.subrange(8, 12).push('-') + h.subrange(12, 16).push('-')
        + h.subrange(16, 20).push('-') + h.subrange(20, 32)
}

/// `Uuid::as_u128`: the number that the UUID holds.
#[verifier::external_body]
pub(crate) fn value_of_uuid(uuid: &Uuid) -> (r: u128)
    ensures
        r == uuid_value(*uuid),
{
    uuid.as_u128()
}

/// `Uuid::from_u128`: the UUID that holds the number.
#[verifier::external_body]
pub(crate) fn uuid_of_value(value: u128) -> (r: Uuid)
    ensures
        uuid_value(r) == value,
{
    Uuid::from_u128(value)
}

/// `Uuid::new_v4`: a random UUID whose version bits are 0100 and whose variant bits
/// are 10.
#[verifier::external_body]
pub(crate) fn random_uuid() -> (r: u128)
    ensures
        (r >> 76u128) & 0xf == 4,
        (r >> 62u128) & 0x3 == 2,
{
    Uuid::new_v4().as_u128()
}

/// `Uuid::parse_str`: the number of the UUID that the text writes, or the wording of
/// the error. Which texts are accepted is left to the crate.
#[verifier::external_body]
pub(crate) fn parse_uuid(text: &str) -> (r: Result<u128, String>)
    ensures
        r is Ok == uuid_parse(text@) is Ok,
        r is Ok ==> uuid_parse(text@)->Ok_0 == r->Ok_0,
        r is Err ==> uuid_parse(text@)->Err_0 == r->Err_0@,
{
    match Uuid::parse_str(text) {
        Ok(uuid) => Ok(uuid.as_u128()),
        Err(error) => Err(error.to_string()),
    }
}

/// `Uuid`'s `Display`: the hyphenated form, which `Uuid::parse_str` reads back.
#[verifier::external_body]
pub(crate) fn format_uuid(value: u128) -> (r: String)
    ensures
        r@ == hyphenated_text(value),
        uuid_parse(r@) is Ok,
        uuid_parse(r@)->Ok_0 == value,
{
    Uuid::from_u128(value).to_string()
}

} // verus!
