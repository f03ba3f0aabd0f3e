//! Identifiers: UUIDs as 128-bit values, the user id carried by an access
//! token, object storage keys and share tokens.
use vstd::prelude::*;
use crate::encoding::{hex32, hyphenated};
use crate::error::DriveError;

verus! {

broadcast use vstd::string::group_string_axioms;

/// `uuid::Error`, the error of UUID parsing.
#[verifier::external_type_specification]
#[verifier::external_body]
pub struct ExUuidError(uuid::Error);

/// What `uuid::Uuid::parse_str` gives for a text: the 128-bit value of the
/// UUID it denotes, or `None` when the text is no UUID.
pub uninterp spec fn uuid_parse(s: Seq<char>) -> Option<u128>;

/// Calls `uuid::Uuid::parse_str` and reads the result back as a `u128`
/// (`Uuid::as_u128`). Trusted: the result is `uuid_parse` of the text.
#[verifier::external_body]
fn parse_uuid(s: &str) -> (r: Result<u128, uuid::Error>)
    ensures
        match r {
            Ok(v) => uuid_parse(s@) == Some(v),
            Err(_) => uuid_parse(s@) is None,
        },
{
    uuid::Uuid::parse_str(s).map(|u| u.as_u128())
}

/// `uuid::Uuid::from_u128(x).simple().to_string()`. Trusted: the text is the
/// 32 lowercase hexadecimal digits of `x`, most significant first.
#[verifier::external_body]
pub fn uuid_simple(x: u128) -> (r: String)
    ensures
        r@ == hex32(x),
{
    uuid::Uuid::from_u128(x).simple().to_string()
}

/// `uuid::Uuid::from_u128(x).to_string()`. Trusted: the text is the
/// hyphenated 8-4-4-4-12 lowercase form of `x`.
#[verifier::external_body]
pub fn uuid_hyphenated(x: u128) -> (r: String)
    ensures
        r@ == hyphenated(x),
{
    uuid::Uuid::from_u128(x).to_string()
}

/// The user id of an access token's `sub` claim; a `sub` that is no UUID
/// makes the token invalid.
pub fn user_id_of(sub: &str) -> (r: Result<u128, DriveError>)
    ensures
        match uuid_parse(sub@) {
            Some(v) => r == Ok::<u128, DriveError>(v),
            None => r == Err::<u128, DriveError>(DriveError::InvalidToken),
        },
{
    match parse_uuid(sub) {
        Ok(v) => Ok(v),
        Err(_) => Err(DriveError::InvalidToken),
    }
}

/// Every character of the simple form of a UUID is a lowercase hex digit.
pub open spec fn is_lower_hex_char(c: char) -> bool {
    ('0' <= c <= '9') || ('a' <= c <= 'f')
}

proof fn lemma_hex32_chars(x: u128)
    ensures
        hex32(x).len() == 32,
        forall|i: int| 0 <= i < 32 ==> is_lower_hex_char(#[trigger] hex32(x)[i]),
{
    assert forall|i: int| 0 <= i < 32 implies is_lower_hex_char(#[trigger] hex32(x)[i]) by {
        let n = crate::encoding::nibble(x, i);
        assert(0 <= n < 16);
    }
}

/// The storage key of an uploaded file: `drive/<space>/<file>`, both ids in
/// simple form. It never holds the user's file name.
pub fn storage_key(space_id: u128, file_id: u128) -> (r: String)
    ensures
        r@ == "drive/"@ + hex32(space_id) + "/"@ + hex32(file_id),
        r@.len() == 71,
        forall|i: int|
            0 <= i < r@.len() ==> #[trigger] r@[i] == '/' || is_lower_hex_char(r@[i]) || r@[i]
                == 'd' || r@[i] == 'r' || r@[i] == 'i' || r@[i] == 'v' || r@[i] == 'e',
{
    let a = uuid_simple(space_id);
    let b = uuid_simple(file_id);
    let mut key = String::from_str("drive/");
    key.append(a.as_str());
    key.append("/");
    key.append(b.as_str());
    proof {
        reveal_strlit("drive/");
        reveal_strlit("/");
        lemma_hex32_chars(space_id);
        lemma_hex32_chars(file_id);
        let r = key@;
        assert forall|i: int| 0 <= i < r.len() implies #[trigger] r[i] == '/' || is_lower_hex_char(
            r[i],
        ) || r[i] == 'd' || r[i] == 'r' || r[i] == 'i' || r[i] == 'v' || r[i] == 'e' by {
            if i < 6 {
                assert("drive/"@[i] == r[i]);
            } else if i < 38 {
                assert(r[i] == hex32(space_id)[i - 6]);
            } else if i == 38 {
            } else {
                assert(r[i] == hex32(file_id)[i - 39]);
            }
        }
    }
    key
}

/// A share token: the simple forms of two fresh ids, one after the other,
/// 64 lowercase hexadecimal digits.
pub fn share_token(first: u128, second: u128) -> (r: String)
    ensures
        r@ == hex32(first) + hex32(second),
        r@.len() == 64,
        forall|i: int| 0 <= i < 64 ==> is_lower_hex_char(#[trigger] r@[i]),
{
    let a = uuid_simple(first);
    let b = uuid_simple(second);
    proof {
        lemma_hex32_chars(first);
        lemma_hex32_chars(second);
    }
    let r = a.concat(b.as_str());
    proof {
        assert forall|i: int| 0 <= i < 64 implies is_lower_hex_char(#[trigger] r@[i]) by {
            if i < 32 {
                assert(r@[i] == hex32(first)[i]);
            } else {
                assert(r@[i] == hex32(second)[i - 32]);
            }
        }
    }
    r
}

} // verus!
