use vstd::prelude::*;
use vstd::string::StringExecFns;

use crate::errors::ServiceError;

verus! {

/// Whether `uuid::Uuid::parse_str` accepts a string. The parser admits
/// several textual forms (hyphenated, simple, braced, URN), so the predicate
/// is named rather than spelled out.
pub uninterp spec fn uuid_parses(s: Seq<char>) -> bool;

/// Relies on `uuid::Uuid::parse_str`: acceptance is a function of the
/// characters alone.
#[verifier::external_body]
pub fn uuid_valid(s: &str) -> (r: bool)
    ensures
        r == uuid_parses(s@),
{
    uuid::Uuid::parse_str(s).is_ok()
}

/// Relies on `uuid::Uuid::new_v4` and its `Display` form: a fresh random
/// identifier rendered in the canonical hyphenated form, which is 36
/// characters long and accepted by `Uuid::parse_str`. The value itself is
/// random, so nothing more is stated of it. If the operating system's
/// randomness source fails, the call does not return: an entropy-source
/// failure is fatal to the process.
#[verifier::external_body]
pub fn new_uuid() -> (r: String)
    ensures
        r@.len() == 36,
        uuid_parses(r@),
{
    uuid::Uuid::new_v4().to_string()
}

/// The nil identifier text, recorded where a supplied reference fails to
/// parse rather than rejecting the whole request.
pub open spec fn nil_uuid_text() -> Seq<char> {
    "00000000-0000-0000-0000-000000000000"@
}

/// The nil identifier as a value.
pub fn nil_uuid() -> (r: String)
    ensures
        r@ == nil_uuid_text(),
{
    String::from_str("00000000-0000-0000-0000-000000000000")
}

/// Reject a request identifier that `Uuid::parse_str` does not accept.
pub fn validate_id(id: &str) -> (r: Result<(), ServiceError>)
    ensures
        r is Ok <==> uuid_parses(id@),
        r matches Err(e) ==> e == ServiceError::Validation,
{
    if uuid_valid(id) {
        Ok(())
    } else {
        Err(ServiceError::Validation)
    }
}

} // verus!
