//! The canonical document model: formats, locations inside a document,
//! chapters and blocks.

use vstd::prelude::*;

use crate::clock::Timestamp;
use crate::uuid_text::{
    is_random_uuid, random_uuid, uuid_from_text, uuid_hyphenated, uuid_parse_value, uuid_to_text,
};

verus! {

/// The input formats a document can come from.
#[derive(Debug, Clone, Copy, PartialEq, Eq, Hash, Structural)]
pub enum DocumentFormat {
    Epub,
    Markdown,
    Pdf,
}

/// The lowercase name of a format, as it is displayed and serialized.
pub open spec fn format_name(format: DocumentFormat) -> Seq<char> {
    match format {
        DocumentFormat::Epub => seq!['e', 'p', 'u', 'b'],
        DocumentFormat::Markdown => seq!['m', 'a', 'r', 'k', 'd', 'o', 'w', 'n'],
        DocumentFormat::Pdf => seq!['p', 'd', 'f'],
    }
}

impl DocumentFormat {
    /// The lowercase name of the format (`"epub"`, `"markdown"`, `"pdf"`).
    pub fn as_str(&self) -> (name: &'static str)
        ensures
            name@ == format_name(*self),
    {
        match self {
            DocumentFormat::Epub => {
                proof {
                    reveal_strlit("epub");
                }
                "epub"
            },
            DocumentFormat::Markdown => {
                proof {
                    reveal_strlit("markdown");
                }
                "markdown"
            },
            DocumentFormat::Pdf => {
                proof {
                    reveal_strlit("pdf");
                }
                "pdf"
            },
        }
    }
}

} // verus!

verus! {

/// The error of reading an identifier from text: the text is not a UUID.
#[derive(Debug)]
pub struct IdParseError(pub uuid::Error);

/// Identifies a document.
#[derive(Debug, Clone, Copy, PartialEq, Eq, Hash, Structural)]
pub struct DocumentId(pub u128);

impl DocumentId {
    /// A fresh random identifier (a version 4 UUID).
    pub fn new() -> (id: Self)
        ensures
            is_random_uuid(id.0),
    {
        DocumentId(random_uuid())
    }

    /// The hyphenated lowercase UUID form of the identifier.
    pub fn to_string(&self) -> (text: String)
        ensures
            text@ == uuid_hyphenated(self.0),
            uuid_parse_value(text@) == Some(self.0),
    {
        uuid_to_text(self.0)
    }

    /// Reads an identifier from any UUID form that the `uuid` crate accepts.
    pub fn parse(text: &str) -> (r: Result<Self, IdParseError>)
        ensures
            r is Ok <==> uuid_parse_value(text@) is Some,
            r matches Ok(id) ==> uuid_parse_value(text@) == Some(id.0),
    {
        match uuid_from_text(text) {
            Ok(v) => Ok(DocumentId(v)),
            Err(e) => Err(IdParseError(e)),
        }
    }
}

impl Default for DocumentId {
    /// A fresh random identifier, as `new` gives.
    fn default() -> (id: Self)
        ensures
            is_random_uuid(id.0),
    {
        DocumentId::new()
    }
}

impl std::str::FromStr for DocumentId {
    type Err = IdParseError;

    fn from_str(s: &str) -> (r: Result<Self, Self::Err>)
        ensures
            r is Ok <==> uuid_parse_value(s@) is Some,
            r matches Ok(id) ==> uuid_parse_value(s@) == Some(id.0),
    {
        DocumentId::parse(s)
    }
}

/// Identifies a chapter of a document.
#[derive(Debug, Clone, Copy, PartialEq, Eq, Hash, Structural)]
pub struct ChapterId(pub u128);

impl ChapterId {
    /// A fresh random identifier (a version 4 UUID).
    pub fn new() -> (id: Self)
        ensures
            is_random_uuid(id.0),
    {
        ChapterId(random_uuid())
    }

    /// The hyphenated lowercase UUID form of the identifier.
    pub fn to_string(&self) -> (text: String)
        ensures
            text@ == uuid_hyphenated(self.0),
            uuid_parse_value(text@) == Some(self.0),
    {
        uuid_to_text(self.0)
    }

    /// Reads an identifier from any UUID form that the `uuid` crate accepts.
    pub fn parse(text: &str) -> (r: Result<Self, IdParseError>)
        ensures
            r is Ok <==> uuid_parse_value(text@) is Some,
            r matches Ok(id) ==> uuid_parse_value(text@) == Some(id.0),
    {
        match uuid_from_text(text) {
            Ok(v) => Ok(ChapterId(v)),
            Err(e) => Err(IdParseError(e)),
        }
    }
}

impl Default for ChapterId {
    /// A fresh random identifier, as `new` gives.
    fn default() -> (id: Self)
        ensures
            is_random_uuid(id.0),
    {
        ChapterId::new()
    }
}

impl std::str::FromStr for ChapterId {
    type Err = IdParseError;

    fn from_str(s: &str) -> (r: Result<Self, Self::Err>)
        ensures
            r is Ok <==> uuid_parse_value(s@) is Some,
            r matches Ok(id) ==> uuid_parse_value(s@) == Some(id.0),
    {
        ChapterId::parse(s)
    }
}

/// Identifies a block of text inside a chapter.
#[derive(Debug, Clone, Copy, PartialEq, Eq, Hash, Structural)]
pub struct BlockId(pub u128);

impl BlockId {
    /// A fresh random identifier (a version 4 UUID).
    pub fn new() -> (id: Self)
        ensures
            is_random_uuid(id.0),
    {
        BlockId(random_uuid())
    }

    /// The hyphenated lowercase UUID form of the identifier.
    pub fn to_string(&self) -> (text: String)
        ensures
            text@ == uuid_hyphenated(self.0),
            uuid_parse_value(text@) == Some(self.0),
    {
        uuid_to_text(self.0)
    }

    /// Reads an identifier from any UUID form that the `uuid` crate accepts.
    pub fn parse(text: &str) -> (r: Result<Self, IdParseError>)
        ensures
            r is Ok <==> uuid_parse_value(text@) is Some,
            r matches Ok(id) ==> uuid_parse_value(text@) == Some(id.0),
    {
        match uuid_from_text(text) {
            Ok(v) => Ok(BlockId(v)),
            Err(e) => Err(IdParseError(e)),
        }
    }
}

impl Default for BlockId {
    /// A fresh random identifier, as `new` gives.
    fn default() -> (id: Self)
        ensures
            is_random_uuid(id.0),
    {
        BlockId::new()
    }
}

impl std::str::FromStr for BlockId {
    type Err = IdParseError;

    fn from_str(s: &str) -> (r: Result<Self, Self::Err>)
        ensures
            r is Ok <==> uuid_parse_value(s@) is Some,
            r matches Ok(id) ==> uuid_parse_value(s@) == Some(id.0),
    {
        BlockId::parse(s)
    }
}

/// Identifies an annotation.
#[derive(Debug, Clone, Copy, PartialEq, Eq, Hash, Structural)]
pub struct AnnotationId(pub u128);

impl AnnotationId {
    /// A fresh random identifier (a version 4 UUID).
    pub fn new() -> (id: Self)
        ensures
            is_random_uuid(id.0),
    {
        AnnotationId(random_uuid())
    }

    /// The hyphenated lowercase UUID form of the identifier.
    pub fn to_string(&self) -> (text: String)
        ensures
            text@ == uuid_hyphenated(self.0),
            uuid_parse_value(text@) == Some(self.0),
    {
        uuid_to_text(self.0)
    }

    /// Reads an identifier from any UUID form that the `uuid` crate accepts.
    pub fn parse(text: &str) -> (r: Result<Self, IdParseError>)
        ensures
            r is Ok <==> uuid_parse_value(text@) is Some,
            r matches Ok(id) ==> uuid_parse_value(text@) == Some(id.0),
    {
        match uuid_from_text(text) {
            Ok(v) => Ok(AnnotationId(v)),
            Err(e) => Err(IdParseError(e)),
        }
    }
}

impl Default for AnnotationId {
    /// A fresh random identifier, as `new` gives.
    fn default() -> (id: Self)
        ensures
            is_random_uuid(id.0),
    {
        AnnotationId::new()
    }
}

impl std::str::FromStr for AnnotationId {
    type Err = IdParseError;

    fn from_str(s: &str) -> (r: Result<Self, Self::Err>)
        ensures
            r is Ok <==> uuid_parse_value(s@) is Some,
            r matches Ok(id) ==> uuid_parse_value(s@) == Some(id.0),
    {
        AnnotationId::parse(s)
    }
}

} // verus!

verus! {

/// The widest span, in characters, that a location may cover.
pub const MAX_SPAN: u32 = 10_000_000;

/// A range of characters inside one block of a document, whatever format
/// the document came from. `char_start` and `char_end` index the block's
/// rendered plain text by character, not by byte, so a location survives
/// reflow, zoom and theme changes.
#[derive(Debug, Clone, Copy, PartialEq, Eq, Hash, Structural)]
pub struct CanonicalLocation {
    pub document_id: DocumentId,
    pub chapter_id: ChapterId,
    pub block_id: BlockId,
    pub char_start: u32,
    pub char_end: u32,
}

/// Why a location is refused.
#[derive(Debug, Clone, Copy, PartialEq, Eq, Structural)]
pub enum LocationError {
    /// The range starts after it ends.
    InvertedRange { start: u32, end: u32 },
    /// The range covers more than `MAX_SPAN` characters.
    RangeTooLarge { span: u32 },
}

/// The decimal digit for a value below ten.
pub open spec fn decimal_digit(d: nat) -> char {
    (48 + d) as char
}

/// The decimal form of a natural number, without leading zeros.
pub open spec fn decimal_text(n: nat) -> Seq<char>
    decreases n,
{
    if n < 10 {
        seq![decimal_digit(n)]
    } else {
        decimal_text(n / 10).push(decimal_digit(n % 10))
    }
}

/// Calls `u32::to_string` (its `Display`): the decimal form of the number.
#[verifier::external_body]
fn u32_text(n: u32) -> (text: String)
    ensures
        text@ == decimal_text(n as nat),
{
    n.to_string()
}

impl LocationError {
    /// The human-readable text of the error.
    pub open spec fn text(self) -> Seq<char> {
        match self {
            LocationError::InvertedRange { start, end } => "char_start ("@ + decimal_text(
                start as nat,
            ) + ") > char_end ("@ + decimal_text(end as nat) + ")"@,
            LocationError::RangeTooLarge { span } => "range span "@ + decimal_text(span as nat)
                + " too large (> 10M chars)"@,
        }
    }

    /// The error as text, such as `char_start (50) > char_end (10)`.
    pub fn message(&self) -> (text: String)
        ensures
            text@ == self.text(),
    {
        match self {
            LocationError::InvertedRange { start, end } => {
                let mut text = String::from_str("char_start (");
                let start_text = u32_text(*start);
                text.append(start_text.as_str());
                text.append(") > char_end (");
                let end_text = u32_text(*end);
                text.append(end_text.as_str());
                text.append(")");
                text
            },
            LocationError::RangeTooLarge { span } => {
                let mut text = String::from_str("range span ");
                let span_text = u32_text(*span);
                text.append(span_text.as_str());
                text.append(" too large (> 10M chars)");
                text
            },
        }
    }
}

impl CanonicalLocation {
    /// The number of characters covered; zero where the range is inverted.
    pub open spec fn span(self) -> nat {
        if self.char_start <= self.char_end {
            (self.char_end - self.char_start) as nat
        } else {
            0
        }
    }

    /// A location is valid when it starts no later than it ends and covers
    /// at most `MAX_SPAN` characters.
    pub open spec fn is_valid(self) -> bool {
        self.char_start <= self.char_end && self.span() <= MAX_SPAN
    }

    /// The outcome of validation: `Ok` for a valid location, else the
    /// first rule that it breaks.
    pub open spec fn validation(self) -> Result<(), LocationError> {
        if self.char_start > self.char_end {
            Err(LocationError::InvertedRange { start: self.char_start, end: self.char_end })
        } else if self.span() > MAX_SPAN {
            Err(LocationError::RangeTooLarge { span: self.span() as u32 })
        } else {
            Ok(())
        }
    }

    /// Checks that the range is not inverted and not wider than `MAX_SPAN`.
    pub fn validate(&self) -> (r: Result<(), LocationError>)
        ensures
            r == self.validation(),
            r is Ok <==> self.is_valid(),
    {
        if self.char_start > self.char_end {
            return Err(LocationError::InvertedRange { start: self.char_start, end: self.char_end });
        }
        let span = self.char_end - self.char_start;
        if span > MAX_SPAN {
            return Err(LocationError::RangeTooLarge { span });
        }
        Ok(())
    }

    /// The number of characters covered (zero for an inverted range).
    pub fn len(&self) -> (n: u32)
        ensures
            n == self.span(),
    {
        self.char_end.saturating_sub(self.char_start)
    }

    /// Whether the range covers no character because it starts where it ends.
    pub fn is_empty(&self) -> (b: bool)
        ensures
            b == (self.char_start == self.char_end),
    {
        self.char_start == self.char_end
    }
}

/// A valid location covers exactly `char_end - char_start` characters, and
/// never more than `MAX_SPAN`.
pub proof fn lemma_valid_location_span(loc: CanonicalLocation)
    requires
        loc.is_valid(),
    ensures
        loc.span() == loc.char_end - loc.char_start,
        loc.span() <= MAX_SPAN,
        loc.validation() == Ok::<(), LocationError>(()),
{
}

/// What validation answers, by the location's bounds alone: a range that
/// starts after it ends is inverted, whatever its width; a range that does
/// not is too large exactly when it covers more than ten million
/// characters, and then reports that width; every other range is accepted.
pub proof fn lemma_validation_by_bounds(loc: CanonicalLocation)
    ensures
        loc.char_start > loc.char_end ==> loc.validation() == Err::<(), LocationError>(
            LocationError::InvertedRange { start: loc.char_start, end: loc.char_end },
        ),
        loc.char_start <= loc.char_end && loc.char_end - loc.char_start > 10_000_000
            ==> loc.validation() == Err::<(), LocationError>(
            LocationError::RangeTooLarge { span: (loc.char_end - loc.char_start) as u32 },
        ),
        loc.char_start <= loc.char_end && loc.char_end - loc.char_start <= 10_000_000
            ==> loc.validation() == Ok::<(), LocationError>(()),
{
}

/// An empty location covers no character; for a valid location the
/// converse holds too, so emptiness and a zero length agree.
pub proof fn lemma_empty_iff_zero_span(loc: CanonicalLocation)
    ensures
        loc.char_start == loc.char_end ==> loc.span() == 0,
        loc.is_valid() ==> (loc.span() == 0 <==> loc.char_start == loc.char_end),
{
}

/// What is known of a document as a whole.
#[derive(Debug, Clone, PartialEq, Eq)]
pub struct DocumentMeta {
    pub id: DocumentId,
    pub title: String,
    pub author: Option<String>,
    pub format: DocumentFormat,
    /// Hash of the source file, used to recognise the same book on re-import.
    pub content_hash: String,
    pub created_at: Timestamp,
    pub updated_at: Timestamp,
}

/// An entry of the table of contents.
#[derive(Debug, Clone, PartialEq, Eq)]
pub struct Chapter {
    pub id: ChapterId,
    pub parent_id: Option<ChapterId>,
    pub title: String,
    /// 1 = top level (a part or chapter), 2 = sub-chapter, and so on.
    pub level: u8,
    /// 0-based order in the table of contents.
    pub position: u32,
}

/// A unit of rendered plain text inside a chapter; locations index it.
#[derive(Debug, Clone, PartialEq, Eq)]
pub struct Block {
    pub id: BlockId,
    pub chapter_id: ChapterId,
    /// Plain text with the markup stripped; `char_start`/`char_end` index it.
    pub text: String,
    /// 0-based index of the block inside its chapter.
    pub index_in_chapter: u32,
}

} // verus!
