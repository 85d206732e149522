//! What the token layer shares with the rest of the backend.

use vstd::prelude::*;
use jwt::header::{HeaderContentType, HeaderType};
use jwt::{AlgorithmType, Header};

verus! {

/// `jwt::AlgorithmType`, with its variants as the crate declares them.
#[verifier::external_type_specification]
pub struct ExAlgorithmType(AlgorithmType);

/// `jwt::header::HeaderType`, with its variants as the crate declares them.
#[verifier::external_type_specification]
pub struct ExHeaderType(HeaderType);

/// `jwt::header::HeaderContentType`, with its variants as the crate declares them.
#[verifier::external_type_specification]
pub struct ExHeaderContentType(HeaderContentType);

/// `jwt::Header`, with its four public fields as the crate declares them.
#[verifier::external_type_specification]
pub struct ExHeader(Header);

/// The claims of an authenticated user.
#[derive(Clone, Debug)]
pub struct JWTAuth {
    pub email: String,
    pub firstname: String,
    pub lastname: String,
    pub id: u32,
}

/// Which part of a listing is asked for.
#[derive(Clone, Copy, Debug, PartialEq, Eq, Structural)]
pub struct Pagination {
    pub skip: Option<u32>,
    pub take: Option<u32>,
}

/// The header of every token that the backend issues: HMAC with SHA-256, and
/// no other field set.
pub fn get_jwt_header() -> (header: Header)
    ensures
        header.algorithm == AlgorithmType::Hs256,
        header.key_id is None,
        header.type_ is None,
        header.content_type is None,
{
    Header { algorithm: AlgorithmType::Hs256, key_id: None, type_: None, content_type: None }
}

} // verus!
