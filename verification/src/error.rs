//! The uniform error value and the two-string shape it takes at the boundary.

use crate::category::lemma_parse_inverts_text;
use crate::category::Category;
use crate::source::SourceKind;
use vstd::prelude::*;

verus! {

/// What an [`HTTPulseError`] holds: the failure's text and its origin tag.
pub ghost struct ErrorView {
    pub message: Seq<char>,
    pub category: Category,
}

/// What a [`WireShape`] holds: the two strings that cross the boundary.
pub ghost struct WireView {
    pub message: Seq<char>,
    pub category: Seq<char>,
}

/// The error that a failure of `kind` with display text `text` becomes: the
/// text untouched, and the tag that `kind` carries.
pub open spec fn normalized(kind: SourceKind, text: Seq<char>) -> ErrorView {
    ErrorView { message: text, category: kind.tag() }
}

/// How an error is written at the boundary.
pub open spec fn encoded(e: ErrorView) -> WireView {
    WireView { message: e.message, category: e.category.text() }
}

/// How a pair of boundary strings is read back, if its tag is a known one.
pub open spec fn decoded(w: WireView) -> Option<ErrorView> {
    match Category::parse(w.category) {
        Some(category) => Some(ErrorView { message: w.message, category }),
        None => None,
    }
}

/// A subsystem failure in uniform shape.
///
/// The value is fixed once built: it carries the failure's own display text
/// and the tag of the subsystem that raised it, and nothing else.
#[derive(Debug)]
pub struct HTTPulseError {
    message: String,
    category: Category,
}

/// An error as it crosses the boundary: two strings under stable names.
#[derive(Debug)]
pub struct WireShape {
    pub message: String,
    pub category: String,
}

impl View for HTTPulseError {
    type V = ErrorView;

    closed spec fn view(&self) -> ErrorView {
        ErrorView { message: self.message@, category: self.category }
    }
}

impl View for WireShape {
    type V = WireView;

    open spec fn view(&self) -> WireView {
        WireView { message: self.message@, category: self.category@ }
    }
}

impl Clone for HTTPulseError {
    fn clone(&self) -> (copy: Self)
        ensures
            copy@ == self@,
    {
        HTTPulseError { message: self.message.clone(), category: self.category }
    }
}

impl Clone for WireShape {
    fn clone(&self) -> (copy: Self)
        ensures
            copy@ == self@,
    {
        WireShape { message: self.message.clone(), category: self.category.clone() }
    }
}

impl HTTPulseError {
    /// Builds the error for a failure of `kind` whose display text is
    /// `message`. The text is kept as it is, whatever it holds.
    pub fn new(kind: SourceKind, message: String) -> (e: Self)
        ensures
            e@ == normalized(kind, message@),
    {
        HTTPulseError { message, category: kind.category() }
    }

    /// The failure's display text.
    pub fn message(&self) -> (m: &str)
        ensures
            m@ == self@.message,
    {
        self.message.as_str()
    }

    /// The tag of the subsystem that raised the failure.
    pub fn category(&self) -> (c: Category)
        ensures
            c == self@.category,
    {
        self.category
    }

    /// Writes the error as the two strings that cross the boundary.
    pub fn to_wire(&self) -> (w: WireShape)
        ensures
            w@ == encoded(self@),
    {
        WireShape { message: self.message.clone(), category: self.category.as_str().to_owned() }
    }

    /// Reads an error back from its two boundary strings.
    ///
    /// The message is taken as it is. The tag must be one of the known tag
    /// texts; with any other tag nothing is returned.
    pub fn from_wire(w: &WireShape) -> (e: Option<Self>)
        ensures
            match e {
                Some(read) => decoded(w@) == Some(read@),
                None => decoded(w@) is None,
            },
    {
        match Category::from_text(w.category.as_str()) {
            Some(category) => Some(HTTPulseError { message: w.message.clone(), category }),
            None => None,
        }
    }
}

/// Turning a failure into an error never loses its text: the message is
/// non-empty whenever the failure's display text is.
pub proof fn lemma_message_is_text(kind: SourceKind, text: Seq<char>)
    ensures
        normalized(kind, text).message == text,
        text.len() > 0 ==> normalized(kind, text).message.len() > 0,
{
}

/// The tag of an error depends on the failure's kind alone, never on its
/// text: the same kind gives the same tag every time.
pub proof fn lemma_tag_depends_on_kind(kind: SourceKind, first: Seq<char>, second: Seq<char>)
    ensures
        normalized(kind, first).category == normalized(kind, second).category,
        normalized(kind, first).category == kind.tag(),
{
}

/// What is written at the boundary always carries a known tag text.
pub proof fn lemma_encoded_tag_is_known(e: ErrorView)
    ensures
        Category::is_text(encoded(e).category),
{
    assert(e.category.text() == encoded(e).category);
}

/// Writing an error and reading it back gives the same error.
pub proof fn lemma_wire_round_trip(e: ErrorView)
    ensures
        decoded(encoded(e)) == Some(e),
{
    lemma_parse_inverts_text(e.category);
}

/// Reading a pair of boundary strings and writing the result gives the
/// same pair back.
pub proof fn lemma_wire_read_then_write(w: WireView)
    requires
        decoded(w) is Some,
    ensures
        encoded(decoded(w).unwrap()) == w,
{
}

} // verus!
