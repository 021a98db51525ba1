//! The closed set of subsystem-of-origin tags.

use vstd::prelude::*;

verus! {

/// The subsystem a failure came from.
///
/// A tag names an origin, not a failure mode: `HttpTransport` covers both a
/// request that could not be built and one that failed in flight.
#[derive(Clone, Copy, Debug, PartialEq, Eq, Structural)]
pub enum Category {
    Persistence,
    HttpTransport,
    InvalidUri,
    InvalidHeaderValue,
    InvalidHeaderName,
    HeaderToString,
    Io,
    CookieJar,
    UrlParse,
    JsonCodec,
    Base64Codec,
    Archive,
    CookieParse,
}

impl Category {
    /// The tag as it is written on the wire.
    pub open spec fn text(self) -> Seq<char> {
        match self {
            Category::Persistence => "persistence"@,
            Category::HttpTransport => "httpTransport"@,
            Category::InvalidUri => "invalidUri"@,
            Category::InvalidHeaderValue => "invalidHeaderValue"@,
            Category::InvalidHeaderName => "invalidHeaderName"@,
            Category::HeaderToString => "headerToString"@,
            Category::Io => "io"@,
            Category::CookieJar => "cookieJar"@,
            Category::UrlParse => "urlParse"@,
            Category::JsonCodec => "jsonCodec"@,
            Category::Base64Codec => "base64Codec"@,
            Category::Archive => "archive"@,
            Category::CookieParse => "cookieParse"@,
        }
    }

    /// Whether `text` is how some tag is written.
    pub open spec fn is_text(text: Seq<char>) -> bool {
        exists|c: Category| #[trigger] c.text() == text
    }

    /// The tag that is written as `text`, if there is one.
    pub open spec fn parse(text: Seq<char>) -> Option<Category> {
        if Category::is_text(text) {
            Some(choose|c: Category| #[trigger] c.text() == text)
        } else {
            None
        }
    }

    /// The tag as it is written on the wire.
    pub fn as_str(&self) -> (s: &'static str)
        ensures
            s@ == self.text(),
    {
        match self {
            Category::Persistence => "persistence",
            Category::HttpTransport => "httpTransport",
            Category::InvalidUri => "invalidUri",
            Category::InvalidHeaderValue => "invalidHeaderValue",
            Category::InvalidHeaderName => "invalidHeaderName",
            Category::HeaderToString => "headerToString",
            Category::Io => "io",
            Category::CookieJar => "cookieJar",
            Category::UrlParse => "urlParse",
            Category::JsonCodec => "jsonCodec",
            Category::Base64Codec => "base64Codec",
            Category::Archive => "archive",
            Category::CookieParse => "cookieParse",
        }
    }
}

/// Whether two strings hold the same characters.
fn same_text(a: &str, b: &str) -> (same: bool)
    ensures
        same == (a@ == b@),
{
    let n: usize = a.unicode_len();
    if n != b.unicode_len() {
        return false;
    }
    let mut i: usize = 0;
    while i < n
        invariant
            n == a@.len(),
            n == b@.len(),
            i <= n,
            forall|j: int| 0 <= j < i ==> a@[j] == b@[j],
        decreases n - i,
    {
        if a.get_char(i) != b.get_char(i) {
            return false;
        }
        i += 1;
    }
    assert(a@ =~= b@);
    true
}

impl Category {
    /// Every tag, in declaration order.
    pub fn all() -> (tags: [Category; 13])
        ensures
            forall|c: Category| tags@.contains(c),
            tags@.no_duplicates(),
    {
        let tags = [
            Category::Persistence,
            Category::HttpTransport,
            Category::InvalidUri,
            Category::InvalidHeaderValue,
            Category::InvalidHeaderName,
            Category::HeaderToString,
            Category::Io,
            Category::CookieJar,
            Category::UrlParse,
            Category::JsonCodec,
            Category::Base64Codec,
            Category::Archive,
            Category::CookieParse,
        ];
        proof {
            assert forall|c: Category| tags@.contains(c) by {
                let i: int = match c {
                    Category::Persistence => 0,
                    Category::HttpTransport => 1,
                    Category::InvalidUri => 2,
                    Category::InvalidHeaderValue => 3,
                    Category::InvalidHeaderName => 4,
                    Category::HeaderToString => 5,
                    Category::Io => 6,
                    Category::CookieJar => 7,
                    Category::UrlParse => 8,
                    Category::JsonCodec => 9,
                    Category::Base64Codec => 10,
                    Category::Archive => 11,
                    Category::CookieParse => 12,
                };
                assert(tags@[i] == c);
            }
        }
        tags
    }

    /// Reads a tag back from the way it is written.
    ///
    /// Succeeds exactly on the thirteen tag texts; any other string, however
    /// close to one of them, is refused.
    pub fn from_text(text: &str) -> (parsed: Option<Category>)
        ensures
            parsed == Category::parse(text@),
    {
        let tags = Category::all();
        let mut i: usize = 0;
        while i < 13
            invariant
                i <= 13,
                tags@.len() == 13,
                forall|c: Category| tags@.contains(c),
                forall|j: int| 0 <= j < i ==> tags@[j].text() != text@,
            decreases 13 - i,
        {
            let c = tags[i];
            if same_text(text, c.as_str()) {
                proof {
                    lemma_parse_inverts_text(c);
                }
                return Some(c);
            }
            i += 1;
        }
        proof {
            assert forall|c: Category| c.text() != text@ by {
                assert(tags@.contains(c));
                let j = choose|j: int| 0 <= j < tags@.len() && tags@[j] == c;
                assert(tags@[j].text() != text@);
            }
        }
        None
    }
}

/// No tag has an empty text.
pub proof fn lemma_text_nonempty(c: Category)
    ensures
        c.text().len() > 0,
{
    reveal_texts();
}

/// Distinct tags have distinct texts.
pub proof fn lemma_text_injective(a: Category, b: Category)
    requires
        a.text() == b.text(),
    ensures
        a == b,
{
    reveal_texts();
    if a != b {
        assert(a.text().len() != b.text().len() || a.text()[0] != b.text()[0]);
    }
}

/// Reading a tag's own text gives the tag back.
pub proof fn lemma_parse_inverts_text(c: Category)
    ensures
        Category::parse(c.text()) == Some(c),
{
    assert(Category::is_text(c.text()));
    let d = choose|d: Category| #[trigger] d.text() == c.text();
    lemma_text_injective(d, c);
}

/// A text that reads as a tag is that tag's text.
pub proof fn lemma_parse_sound(text: Seq<char>)
    ensures
        Category::parse(text) matches Some(c) ==> c.text() == text,
        Category::parse(text) is None ==> forall|c: Category| c.text() != text,
{
}

/// Makes the characters of every tag text known.
proof fn reveal_texts()
    ensures
        "persistence"@.len() == 11 && "persistence"@[0] == 'p',
        "httpTransport"@.len() == 13 && "httpTransport"@[0] == 'h',
        "invalidUri"@.len() == 10 && "invalidUri"@[0] == 'i',
        "invalidHeaderValue"@.len() == 18 && "invalidHeaderValue"@[0] == 'i',
        "invalidHeaderName"@.len() == 17 && "invalidHeaderName"@[0] == 'i',
        "headerToString"@.len() == 14 && "headerToString"@[0] == 'h',
        "io"@.len() == 2 && "io"@[0] == 'i',
        "cookieJar"@.len() == 9 && "cookieJar"@[0] == 'c',
        "urlParse"@.len() == 8 && "urlParse"@[0] == 'u',
        "jsonCodec"@.len() == 9 && "jsonCodec"@[0] == 'j',
        "base64Codec"@.len() == 11 && "base64Codec"@[0] == 'b',
        "archive"@.len() == 7 && "archive"@[0] == 'a',
        "cookieParse"@.len() == 11 && "cookieParse"@[0] == 'c',
{
    reveal_strlit("persistence");
    reveal_strlit("httpTransport");
    reveal_strlit("invalidUri");
    reveal_strlit("invalidHeaderValue");
    reveal_strlit("invalidHeaderName");
    reveal_strlit("headerToString");
    reveal_strlit("io");
    reveal_strlit("cookieJar");
    reveal_strlit("urlParse");
    reveal_strlit("jsonCodec");
    reveal_strlit("base64Codec");
    reveal_strlit("archive");
    reveal_strlit("cookieParse");
}

} // verus!
