//! Identifiers of tenants and entities.
//!
//! An identifier is a universally unique identifier held as its 128 bits.
//! Reading one from text and writing one as text is done by the `uuid`
//! crate.
use crate::error::{result_view, Error, ErrorView};
use vstd::prelude::*;
use vstd::string::*;

verus! {

/// The identifier that the `uuid` crate reads from `text`, as its 128
/// bits; `None` where it refuses the text.
pub uninterp spec fn uuid_from_text(text: Seq<char>) -> Option<u128>;

/// The text that the `uuid` crate writes for the identifier with the bits
/// `id`: hexadecimal digits in lower case, in groups parted by hyphens.
pub uninterp spec fn uuid_text(id: u128) -> Seq<char>;

/// Trusted: `uuid::Uuid::parse_str`, the result taken as its 128 bits by
/// `Uuid::as_u128`. Returns the named identifier of the text.
#[verifier::external_body]
fn outside_parse(text: &str) -> (r: Option<u128>)
    ensures
        r == uuid_from_text(text@),
{
    match uuid::Uuid::parse_str(text) {
        Ok(id) => Some(id.as_u128()),
        Err(_) => None,
    }
}

/// Trusted: `to_string` of the `uuid::Uuid` made by `Uuid::from_u128`.
/// Returns the named text of the identifier.
#[verifier::external_body]
fn outside_format(id: u128) -> (r: String)
    ensures
        r@ == uuid_text(id),
{
    uuid::Uuid::from_u128(id).to_string()
}

/// Reads an identifier from its text.
pub fn parse_id(text: &str) -> (r: Option<u128>)
    ensures
        r == uuid_from_text(text@),
{
    outside_parse(text)
}

/// Writes an identifier as text.
pub fn format_id(id: u128) -> (r: String)
    ensures
        r@ == uuid_text(id),
{
    outside_format(id)
}

/// What is reported where a request names no tenant, or none that can be
/// read: the request is malformed.
pub open spec fn missing_tenant() -> ErrorView {
    ErrorView::Validation("Missing or invalid x-tenant-id header"@)
}

/// What a request's tenant header stands for, given what reading it as an
/// identifier gave.
pub open spec fn tenant_of(parsed: Option<Option<u128>>) -> Result<u128, ErrorView> {
    match parsed {
        Some(Some(id)) => Ok(id),
        _ => Err(missing_tenant()),
    }
}

/// The tenant that a request names in its tenant header, `header` being
/// the header's value where the request has one.
pub fn tenant_id_from_header(header: Option<&str>) -> (r: Result<u128, Error>)
    ensures
        match header {
            Some(text) => result_view(r) == tenant_of(Some(uuid_from_text(text@))),
            None => result_view(r) == tenant_of(None),
        },
{
    match header {
        Some(text) => tenant_from_parsed(Some(parse_id(text))),
        None => tenant_from_parsed(None),
    }
}

/// The tenant of a request, from what reading its header gave: `None`
/// where there was no header, `Some(None)` where its value was no
/// identifier.
pub fn tenant_from_parsed(parsed: Option<Option<u128>>) -> (r: Result<u128, Error>)
    ensures
        result_view(r) == tenant_of(parsed),
{
    match parsed {
        Some(Some(id)) => Ok(id),
        _ => Err(Error::Validation(String::from_str("Missing or invalid x-tenant-id header"))),
    }
}

} // verus!
