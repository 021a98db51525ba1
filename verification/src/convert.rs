//! Conversions from each subsystem's own failure type.
//!
//! Every conversion keeps the failure's display text as the message and
//! attaches the tag fixed for that failure type. The failure types are the
//! subsystems' own and are carried through without looking inside them.
//!
//! What a failure shows is known only as a relation between the failure and
//! the text that formatting it gave, so each conversion states its result in
//! its `ensures`, through [`converts_to`], and claims no `from_spec`.

use crate::error::normalized;
use crate::error::HTTPulseError;
use crate::source::SourceKind;
use vstd::prelude::*;
use vstd::std_specs::convert::FromSpecImpl;
use vstd::string::to_string_from_display_ensures;

verus! {

/// Whether `text` is what `failure` shows when it is formatted for display.
pub open spec fn displays_as<E: core::fmt::Display + ?Sized>(failure: &E, text: Seq<char>) -> bool {
    exists|shown: String|
        shown@ == text && #[trigger] to_string_from_display_ensures::<E>(failure, shown)
}

/// Whether `e` is what a failure of `kind` becomes: its message is the
/// failure's display text and its tag is the one that `kind` carries.
pub open spec fn converts_to<E: core::fmt::Display + ?Sized>(
    kind: SourceKind,
    failure: &E,
    e: HTTPulseError,
) -> bool {
    &&& displays_as(failure, e@.message)
    &&& e@ == normalized(kind, e@.message)
}

impl HTTPulseError {
    /// Turns a failure of `kind` into an error: formats it for display and
    /// keeps that text, untouched, as the message.
    pub fn from_failure<E: core::fmt::Display + ?Sized>(kind: SourceKind, failure: &E) -> (e: Self)
        ensures
            converts_to(kind, failure, e),
    {
        let shown = failure.to_string();
        HTTPulseError::new(kind, shown)
    }
}

/// `sea_orm::DbErr`, the persistence layer's failure. Opaque here: only its display text is ever read.
#[verifier::external_type_specification]
#[verifier::external_body]
pub struct ExDbErr(sea_orm::DbErr);

/// A persistence failure becomes an error tagged as `SourceKind::Persistence` is.
impl From<sea_orm::DbErr> for HTTPulseError {
    fn from(error: sea_orm::DbErr) -> (e: Self)
        ensures
            converts_to(SourceKind::Persistence, &error, e),
    {
        HTTPulseError::from_failure(SourceKind::Persistence, &error)
    }
}

impl FromSpecImpl<sea_orm::DbErr> for HTTPulseError {
    open spec fn obeys_from_spec() -> bool {
        false
    }

    open spec fn from_spec(error: sea_orm::DbErr) -> Self {
        choose|e: HTTPulseError| converts_to(SourceKind::Persistence, &error, e)
    }
}

/// `http::Error` as `hyper` re-exports it, raised while a request or response is assembled. Opaque here: only its display text is ever read.
#[verifier::external_type_specification]
#[verifier::external_body]
pub struct ExHttpError(hyper::http::Error);

/// A request that could not be assembled becomes an error tagged as `SourceKind::HttpRequestBuild` is.
impl From<hyper::http::Error> for HTTPulseError {
    fn from(error: hyper::http::Error) -> (e: Self)
        ensures
            converts_to(SourceKind::HttpRequestBuild, &error, e),
    {
        HTTPulseError::from_failure(SourceKind::HttpRequestBuild, &error)
    }
}

impl FromSpecImpl<hyper::http::Error> for HTTPulseError {
    open spec fn obeys_from_spec() -> bool {
        false
    }

    open spec fn from_spec(error: hyper::http::Error) -> Self {
        choose|e: HTTPulseError| converts_to(SourceKind::HttpRequestBuild, &error, e)
    }
}

/// `hyper::Error`, raised while a request is carried out. Opaque here: only its display text is ever read.
#[verifier::external_type_specification]
#[verifier::external_body]
pub struct ExHyperError(hyper::Error);

/// A request that failed in flight becomes an error tagged as `SourceKind::HttpExecution` is.
impl From<hyper::Error> for HTTPulseError {
    fn from(error: hyper::Error) -> (e: Self)
        ensures
            converts_to(SourceKind::HttpExecution, &error, e),
    {
        HTTPulseError::from_failure(SourceKind::HttpExecution, &error)
    }
}

impl FromSpecImpl<hyper::Error> for HTTPulseError {
    open spec fn obeys_from_spec() -> bool {
        false
    }

    open spec fn from_spec(error: hyper::Error) -> Self {
        choose|e: HTTPulseError| converts_to(SourceKind::HttpExecution, &error, e)
    }
}

/// `http::uri::InvalidUri` as `hyper` re-exports it, raised for a string that is no URI. Opaque here: only its display text is ever read.
#[verifier::external_type_specification]
#[verifier::external_body]
pub struct ExInvalidUri(hyper::http::uri::InvalidUri);

/// A string that is no URI becomes an error tagged as `SourceKind::MalformedUri` is.
impl From<hyper::http::uri::InvalidUri> for HTTPulseError {
    fn from(error: hyper::http::uri::InvalidUri) -> (e: Self)
        ensures
            converts_to(SourceKind::MalformedUri, &error, e),
    {
        HTTPulseError::from_failure(SourceKind::MalformedUri, &error)
    }
}

impl FromSpecImpl<hyper::http::uri::InvalidUri> for HTTPulseError {
    open spec fn obeys_from_spec() -> bool {
        false
    }

    open spec fn from_spec(error: hyper::http::uri::InvalidUri) -> Self {
        choose|e: HTTPulseError| converts_to(SourceKind::MalformedUri, &error, e)
    }
}

/// `hyper::header::InvalidHeaderValue`, raised for bytes that cannot be a header value. Opaque here: only its display text is ever read.
#[verifier::external_type_specification]
#[verifier::external_body]
pub struct ExInvalidHeaderValue(hyper::header::InvalidHeaderValue);

/// Bytes that cannot be a header value becomes an error tagged as `SourceKind::HeaderValue` is.
impl From<hyper::header::InvalidHeaderValue> for HTTPulseError {
    fn from(error: hyper::header::InvalidHeaderValue) -> (e: Self)
        ensures
            converts_to(SourceKind::HeaderValue, &error, e),
    {
        HTTPulseError::from_failure(SourceKind::HeaderValue, &error)
    }
}

impl FromSpecImpl<hyper::header::InvalidHeaderValue> for HTTPulseError {
    open spec fn obeys_from_spec() -> bool {
        false
    }

    open spec fn from_spec(error: hyper::header::InvalidHeaderValue) -> Self {
        choose|e: HTTPulseError| converts_to(SourceKind::HeaderValue, &error, e)
    }
}

/// `hyper::header::InvalidHeaderName`, raised for bytes that cannot be a header name. Opaque here: only its display text is ever read.
#[verifier::external_type_specification]
#[verifier::external_body]
pub struct ExInvalidHeaderName(hyper::header::InvalidHeaderName);

/// Bytes that cannot be a header name becomes an error tagged as `SourceKind::HeaderName` is.
impl From<hyper::header::InvalidHeaderName> for HTTPulseError {
    fn from(error: hyper::header::InvalidHeaderName) -> (e: Self)
        ensures
            converts_to(SourceKind::HeaderName, &error, e),
    {
        HTTPulseError::from_failure(SourceKind::HeaderName, &error)
    }
}

impl FromSpecImpl<hyper::header::InvalidHeaderName> for HTTPulseError {
    open spec fn obeys_from_spec() -> bool {
        false
    }

    open spec fn from_spec(error: hyper::header::InvalidHeaderName) -> Self {
        choose|e: HTTPulseError| converts_to(SourceKind::HeaderName, &error, e)
    }
}

/// `hyper::header::ToStrError`, raised when a header value is not visible ASCII. Opaque here: only its display text is ever read.
#[verifier::external_type_specification]
#[verifier::external_body]
pub struct ExToStrError(hyper::header::ToStrError);

/// A header value that cannot be read as text becomes an error tagged as `SourceKind::HeaderToString` is.
impl From<hyper::header::ToStrError> for HTTPulseError {
    fn from(error: hyper::header::ToStrError) -> (e: Self)
        ensures
            converts_to(SourceKind::HeaderToString, &error, e),
    {
        HTTPulseError::from_failure(SourceKind::HeaderToString, &error)
    }
}

impl FromSpecImpl<hyper::header::ToStrError> for HTTPulseError {
    open spec fn obeys_from_spec() -> bool {
        false
    }

    open spec fn from_spec(error: hyper::header::ToStrError) -> Self {
        choose|e: HTTPulseError| converts_to(SourceKind::HeaderToString, &error, e)
    }
}

/// `std::io::Error`, the failure of a filesystem or other I/O operation. Opaque here: only its display text is ever read.
#[verifier::external_type_specification]
#[verifier::external_body]
pub struct ExIoError(std::io::Error);

/// An I/O failure becomes an error tagged as `SourceKind::Io` is.
impl From<std::io::Error> for HTTPulseError {
    fn from(error: std::io::Error) -> (e: Self)
        ensures
            converts_to(SourceKind::Io, &error, e),
    {
        HTTPulseError::from_failure(SourceKind::Io, &error)
    }
}

impl FromSpecImpl<std::io::Error> for HTTPulseError {
    open spec fn obeys_from_spec() -> bool {
        false
    }

    open spec fn from_spec(error: std::io::Error) -> Self {
        choose|e: HTTPulseError| converts_to(SourceKind::Io, &error, e)
    }
}

/// `url::ParseError`, raised for a string that is no URL. Opaque here: only its display text is ever read.
#[verifier::external_type_specification]
#[verifier::external_body]
pub struct ExUrlParseError(url::ParseError);

/// A string that is no URL becomes an error tagged as `SourceKind::UrlParse` is.
impl From<url::ParseError> for HTTPulseError {
    fn from(error: url::ParseError) -> (e: Self)
        ensures
            converts_to(SourceKind::UrlParse, &error, e),
    {
        HTTPulseError::from_failure(SourceKind::UrlParse, &error)
    }
}

impl FromSpecImpl<url::ParseError> for HTTPulseError {
    open spec fn obeys_from_spec() -> bool {
        false
    }

    open spec fn from_spec(error: url::ParseError) -> Self {
        choose|e: HTTPulseError| converts_to(SourceKind::UrlParse, &error, e)
    }
}

/// `cookie_store::CookieError`, raised when the jar refuses a cookie. Opaque here: only its display text is ever read.
#[verifier::external_type_specification]
#[verifier::external_body]
pub struct ExCookieError(cookie_store::CookieError);

/// A cookie that the jar refused becomes an error tagged as `SourceKind::CookieDomain` is.
impl From<cookie_store::CookieError> for HTTPulseError {
    fn from(error: cookie_store::CookieError) -> (e: Self)
        ensures
            converts_to(SourceKind::CookieDomain, &error, e),
    {
        HTTPulseError::from_failure(SourceKind::CookieDomain, &error)
    }
}

impl FromSpecImpl<cookie_store::CookieError> for HTTPulseError {
    open spec fn obeys_from_spec() -> bool {
        false
    }

    open spec fn from_spec(error: cookie_store::CookieError) -> Self {
        choose|e: HTTPulseError| converts_to(SourceKind::CookieDomain, &error, e)
    }
}

/// `serde_json::Error`, raised when JSON cannot be read or written. Opaque here: only its display text is ever read.
#[verifier::external_type_specification]
#[verifier::external_body]
pub struct ExJsonError(serde_json::Error);

/// JSON that could not be read or written becomes an error tagged as `SourceKind::Json` is.
impl From<serde_json::Error> for HTTPulseError {
    fn from(error: serde_json::Error) -> (e: Self)
        ensures
            converts_to(SourceKind::Json, &error, e),
    {
        HTTPulseError::from_failure(SourceKind::Json, &error)
    }
}

impl FromSpecImpl<serde_json::Error> for HTTPulseError {
    open spec fn obeys_from_spec() -> bool {
        false
    }

    open spec fn from_spec(error: serde_json::Error) -> Self {
        choose|e: HTTPulseError| converts_to(SourceKind::Json, &error, e)
    }
}

/// `base64::DecodeError`, raised for text that is no base64. Opaque here: only its display text is ever read.
#[verifier::external_type_specification]
#[verifier::external_body]
pub struct ExDecodeError(base64::DecodeError);

/// Text that is no base64 becomes an error tagged as `SourceKind::Base64` is.
impl From<base64::DecodeError> for HTTPulseError {
    fn from(error: base64::DecodeError) -> (e: Self)
        ensures
            converts_to(SourceKind::Base64, &error, e),
    {
        HTTPulseError::from_failure(SourceKind::Base64, &error)
    }
}

impl FromSpecImpl<base64::DecodeError> for HTTPulseError {
    open spec fn obeys_from_spec() -> bool {
        false
    }

    open spec fn from_spec(error: base64::DecodeError) -> Self {
        choose|e: HTTPulseError| converts_to(SourceKind::Base64, &error, e)
    }
}

/// `zip::result::ZipError`, raised when an archive cannot be read. Opaque here: only its display text is ever read.
#[verifier::external_type_specification]
#[verifier::external_body]
pub struct ExZipError(zip::result::ZipError);

/// An archive that could not be read becomes an error tagged as `SourceKind::Archive` is.
impl From<zip::result::ZipError> for HTTPulseError {
    fn from(error: zip::result::ZipError) -> (e: Self)
        ensures
            converts_to(SourceKind::Archive, &error, e),
    {
        HTTPulseError::from_failure(SourceKind::Archive, &error)
    }
}

impl FromSpecImpl<zip::result::ZipError> for HTTPulseError {
    open spec fn obeys_from_spec() -> bool {
        false
    }

    open spec fn from_spec(error: zip::result::ZipError) -> Self {
        choose|e: HTTPulseError| converts_to(SourceKind::Archive, &error, e)
    }
}

/// `cookie::ParseError`, raised for a cookie header that does not parse. Opaque here: only its display text is ever read.
#[verifier::external_type_specification]
#[verifier::external_body]
pub struct ExCookieParseError(cookie::ParseError);

/// A cookie header that does not parse becomes an error tagged as `SourceKind::CookieHeader` is.
impl From<cookie::ParseError> for HTTPulseError {
    fn from(error: cookie::ParseError) -> (e: Self)
        ensures
            converts_to(SourceKind::CookieHeader, &error, e),
    {
        HTTPulseError::from_failure(SourceKind::CookieHeader, &error)
    }
}

impl FromSpecImpl<cookie::ParseError> for HTTPulseError {
    open spec fn obeys_from_spec() -> bool {
        false
    }

    open spec fn from_spec(error: cookie::ParseError) -> Self {
        choose|e: HTTPulseError| converts_to(SourceKind::CookieHeader, &error, e)
    }
}

/// Conversion keeps the failure's text: a failure that never shows as an
/// empty text becomes an error with a non-empty message.
pub proof fn lemma_conversion_keeps_text<E: core::fmt::Display + ?Sized>(
    kind: SourceKind,
    failure: &E,
    e: HTTPulseError,
)
    requires
        converts_to(kind, failure, e),
        forall|shown: String| #[trigger]
            to_string_from_display_ensures::<E>(failure, shown) ==> shown@.len() > 0,
    ensures
        displays_as(failure, e@.message),
        e@.message.len() > 0,
{
}

/// Conversion fixes the tag by the failure's kind alone: two failures of one
/// kind, whatever they show, become errors with the same tag.
pub proof fn lemma_conversion_fixes_tag<E: core::fmt::Display + ?Sized>(
    kind: SourceKind,
    first: &E,
    first_error: HTTPulseError,
    second: &E,
    second_error: HTTPulseError,
)
    requires
        converts_to(kind, first, first_error),
        converts_to(kind, second, second_error),
    ensures
        first_error@.category == kind.tag(),
        second_error@.category == first_error@.category,
{
}

} // verus!
