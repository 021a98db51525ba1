//! The recognized kinds of subsystem failure and the tag each one carries.

use crate::category::Category;
use vstd::prelude::*;

verus! {

/// One recognized kind of subsystem failure.
///
/// There is no catch-all kind: a failure the backend does not know how to
/// name cannot be turned into an error at all.
#[derive(Clone, Copy, Debug, PartialEq, Eq, Structural)]
pub enum SourceKind {
    /// The persistence layer refused or lost an operation.
    Persistence,
    /// A request could not be assembled.
    HttpRequestBuild,
    /// A request failed while it was being carried out.
    HttpExecution,
    /// A string did not parse as a URI.
    MalformedUri,
    /// A header value held bytes that are not allowed there.
    HeaderValue,
    /// A header name held bytes that are not allowed there.
    HeaderName,
    /// A header value could not be read as text.
    HeaderToString,
    /// A filesystem or other I/O operation failed.
    Io,
    /// The cookie jar could not store or load its contents.
    CookieStorage,
    /// A cookie was refused by the jar's domain and validity rules.
    CookieDomain,
    /// A string did not parse as a URL.
    UrlParse,
    /// JSON could not be read or written.
    Json,
    /// Base64 text could not be decoded.
    Base64,
    /// An archive could not be read.
    Archive,
    /// A cookie header did not parse.
    CookieHeader,
}

impl SourceKind {
    /// The tag that failures of this kind carry.
    ///
    /// Both HTTP kinds share one tag, and so do both cookie-jar kinds.
    pub open spec fn tag(self) -> Category {
        match self {
            SourceKind::Persistence => Category::Persistence,
            SourceKind::HttpRequestBuild => Category::HttpTransport,
            SourceKind::HttpExecution => Category::HttpTransport,
            SourceKind::MalformedUri => Category::InvalidUri,
            SourceKind::HeaderValue => Category::InvalidHeaderValue,
            SourceKind::HeaderName => Category::InvalidHeaderName,
            SourceKind::HeaderToString => Category::HeaderToString,
            SourceKind::Io => Category::Io,
            SourceKind::CookieStorage => Category::CookieJar,
            SourceKind::CookieDomain => Category::CookieJar,
            SourceKind::UrlParse => Category::UrlParse,
            SourceKind::Json => Category::JsonCodec,
            SourceKind::Base64 => Category::Base64Codec,
            SourceKind::Archive => Category::Archive,
            SourceKind::CookieHeader => Category::CookieParse,
        }
    }

    /// The tag that failures of this kind carry.
    pub fn category(&self) -> (c: Category)
        ensures
            c == self.tag(),
    {
        match self {
            SourceKind::Persistence => Category::Persistence,
            SourceKind::HttpRequestBuild | SourceKind::HttpExecution => Category::HttpTransport,
            SourceKind::MalformedUri => Category::InvalidUri,
            SourceKind::HeaderValue => Category::InvalidHeaderValue,
            SourceKind::HeaderName => Category::InvalidHeaderName,
            SourceKind::HeaderToString => Category::HeaderToString,
            SourceKind::Io => Category::Io,
            SourceKind::CookieStorage | SourceKind::CookieDomain => Category::CookieJar,
            SourceKind::UrlParse => Category::UrlParse,
            SourceKind::Json => Category::JsonCodec,
            SourceKind::Base64 => Category::Base64Codec,
            SourceKind::Archive => Category::Archive,
            SourceKind::CookieHeader => Category::CookieParse,
        }
    }
}

/// Two different kinds may carry the same tag: both cookie-jar kinds carry
/// `CookieJar`, and both HTTP kinds carry `HttpTransport`.
pub proof fn lemma_kinds_share_tags()
    ensures
        SourceKind::CookieStorage != SourceKind::CookieDomain,
        SourceKind::CookieStorage.tag() == Category::CookieJar,
        SourceKind::CookieDomain.tag() == Category::CookieJar,
        SourceKind::HttpRequestBuild != SourceKind::HttpExecution,
        SourceKind::HttpRequestBuild.tag() == Category::HttpTransport,
        SourceKind::HttpExecution.tag() == Category::HttpTransport,
        exists|a: SourceKind, b: SourceKind| a != b && #[trigger] a.tag() == #[trigger] b.tag(),
{
    assert(SourceKind::CookieStorage.tag() == SourceKind::CookieDomain.tag());
}

/// Two kinds that share a tag are the two cookie-jar kinds or the two HTTP
/// kinds; every other kind has its tag to itself.
pub proof fn lemma_shared_tags_are_exactly_two(a: SourceKind, b: SourceKind)
    requires
        a != b,
        a.tag() == b.tag(),
    ensures
        a.tag() == Category::CookieJar || a.tag() == Category::HttpTransport,
{
}

/// Every tag is carried by at least one kind.
pub proof fn lemma_every_tag_has_a_kind(c: Category)
    ensures
        exists|k: SourceKind| #[trigger] k.tag() == c,
{
    match c {
        Category::Persistence => assert(SourceKind::Persistence.tag() == c),
        Category::HttpTransport => assert(SourceKind::HttpExecution.tag() == c),
        Category::InvalidUri => assert(SourceKind::MalformedUri.tag() == c),
        Category::InvalidHeaderValue => assert(SourceKind::HeaderValue.tag() == c),
        Category::InvalidHeaderName => assert(SourceKind::HeaderName.tag() == c),
        Category::HeaderToString => assert(SourceKind::HeaderToString.tag() == c),
        Category::Io => assert(SourceKind::Io.tag() == c),
        Category::CookieJar => assert(SourceKind::CookieStorage.tag() == c),
        Category::UrlParse => assert(SourceKind::UrlParse.tag() == c),
        Category::JsonCodec => assert(SourceKind::Json.tag() == c),
        Category::Base64Codec => assert(SourceKind::Base64.tag() == c),
        Category::Archive => assert(SourceKind::Archive.tag() == c),
        Category::CookieParse => assert(SourceKind::CookieHeader.tag() == c),
    }
}

} // verus!
