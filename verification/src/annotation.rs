//! Annotations: a highlight, optionally with a note and tags, attached to a
//! location. The highlighted text is kept apart from the note, so that a
//! highlight can exist without a note and a note can be long.

use vstd::prelude::*;

use crate::clock::Timestamp;
use crate::model::{AnnotationId, CanonicalLocation, DocumentId};
use crate::uuid_text::is_random_uuid;

verus! {

/// The kinds of annotation.
#[derive(Debug, Clone, Copy, PartialEq, Eq, Hash, Structural)]
pub enum AnnotationKind {
    /// Highlighted text only.
    Highlight,
    /// Highlighted text with a short note.
    Note,
}

/// A highlight or note attached to a location of a document.
#[derive(Debug, Clone, PartialEq, Eq)]
pub struct Annotation {
    pub id: AnnotationId,
    pub document_id: DocumentId,
    pub location: CanonicalLocation,
    pub kind: AnnotationKind,
    /// The highlighted text as it was when the annotation was made.
    pub highlighted_text: String,
    /// The note (Markdown); empty for a plain highlight.
    pub note: String,
    pub tags: Vec<String>,
    pub created_at: Timestamp,
    pub updated_at: Timestamp,
    /// The highlight colour as a hex code.
    pub color: String,
}

/// The colour of a new highlight: yellow, `#FFEB3B`.
pub open spec fn default_color_text() -> Seq<char> {
    seq!['#', 'F', 'F', 'E', 'B', '3', 'B']
}

/// The colour of a new highlight, `#FFEB3B`.
pub fn default_color() -> (color: String)
    ensures
        color@ == default_color_text(),
{
    proof {
        reveal_strlit("#FFEB3B");
        assert("#FFEB3B"@ =~= default_color_text());
    }
    String::from_str("#FFEB3B")
}

impl Annotation {
    /// An annotation with the given identity, made at `at`: both timestamps
    /// are `at` and the colour is the default one.
    pub fn create_at(
        id: AnnotationId,
        at: Timestamp,
        document_id: DocumentId,
        location: CanonicalLocation,
        kind: AnnotationKind,
        highlighted_text: String,
        note: String,
        tags: Vec<String>,
    ) -> (a: Self)
        ensures
            a.id == id,
            a.created_at == at,
            a.updated_at == at,
            a.document_id == document_id,
            a.location == location,
            a.kind == kind,
            a.highlighted_text == highlighted_text,
            a.note == note,
            a.tags == tags,
            a.color@ == default_color_text(),
    {
        Annotation {
            id,
            document_id,
            location,
            kind,
            highlighted_text,
            note,
            tags,
            created_at: at,
            updated_at: at,
            color: default_color(),
        }
    }

    /// A new annotation with a fresh identifier, made now: it was created
    /// and last updated at the same instant, and has the default colour.
    pub fn new(
        document_id: DocumentId,
        location: CanonicalLocation,
        kind: AnnotationKind,
        highlighted_text: String,
        note: String,
        tags: Vec<String>,
    ) -> (a: Self)
        ensures
            is_random_uuid(a.id.0),
            a.created_at == a.updated_at,
            a.created_at.seconds >= 0,
            a.created_at.nanos < 1_000_000_000,
            a.document_id == document_id,
            a.location == location,
            a.kind == kind,
            a.highlighted_text == highlighted_text,
            a.note == note,
            a.tags == tags,
            a.color@ == default_color_text(),
    {
        let now = Timestamp::now();
        Self::create_at(AnnotationId::new(), now, document_id, location, kind, highlighted_text, note, tags)
    }
}

} // verus!
