use vstd::prelude::*;

verus! {

/// The error of `serde_urlencoded`'s serializer, carried through as it came.
#[verifier::external_type_specification]
#[verifier::external_body]
pub struct ExUrlEncodeError(serde_urlencoded::ser::Error);

/// Everything that can go wrong while a record is searched for or fetched.
///
/// Each failure is handed to the caller as one of these values; none is
/// swallowed on the way.
#[derive(Debug, PartialEq, Eq)]
pub enum ImportError {
    /// A fault below HTTP (name resolution, connection, TLS, timeout), with
    /// the transport's own words.
    HTTPError(String),
    /// The request to the given URL was answered with a status outside 200..=299.
    HTTPStatusError(String, u16),
    /// A lookup of one record found none.
    NoMatchesError,
    /// The request parameters could not be form-encoded.
    URLEncodeError(serde_urlencoded::ser::Error),
    /// The response body was not JSON of the expected shape, with the
    /// parser's own words.
    JsonError(String),
    /// The provider answered with an empty list where one envelope is mandatory.
    ProviderProtocolError,
    /// The identifier handed in is not one of this provider's keys.
    InvalidIdentifier(String),
}

} // verus!
