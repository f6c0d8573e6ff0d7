//! What the content engine reports, as plain values.

use crate::error::MupdfServerError;
use vstd::prelude::*;

verus! {

/// How a document is handed to the content engine.
#[derive(Debug)]
pub enum OpenRequest {
    /// Open the file at this path.
    Path(String),
    /// Open these bytes; `magic` is a file name or a media type that tells
    /// the engine how to read them.
    Bytes { bytes: Vec<u8>, magic: String },
}

/// The mathematical content of an [`OpenRequest`].
pub enum OpenRequestView {
    Path(Seq<char>),
    Bytes { bytes: Seq<u8>, magic: Seq<char> },
}

impl View for OpenRequest {
    type V = OpenRequestView;

    open spec fn view(&self) -> OpenRequestView {
        match *self {
            OpenRequest::Path(path) => OpenRequestView::Path(path@),
            OpenRequest::Bytes { bytes, magic } => OpenRequestView::Bytes {
                bytes: bytes@,
                magic: magic@,
            },
        }
    }
}

/// The entries of a document's information dictionary.
#[derive(Clone, Copy, Debug, PartialEq, Eq, Structural)]
pub enum MetadataName {
    Title,
    Author,
    Subject,
    Keywords,
    Creator,
    Producer,
    CreationDate,
    ModDate,
}

/// One line of laid-out text: where it stands and the glyphs on it. A
/// glyph that stands for no character is `None`.
#[derive(Debug)]
pub struct GlyphLine<B> {
    pub bounds: B,
    pub glyphs: Vec<Option<char>>,
}

/// One block of laid-out text: where it stands and its lines.
#[derive(Debug)]
pub struct GlyphBlock<B> {
    pub bounds: B,
    pub lines: Vec<GlyphLine<B>>,
}

/// A hyperlink on a page: where it stands, its target as written, and the
/// page that the engine resolved the target to, if it could.
#[derive(Debug)]
pub struct Link<B> {
    pub bounds: B,
    pub uri: String,
    pub resolved: Result<Option<u32>, MupdfServerError>,
}

/// A rendered page: its size in pixels and the encoded image.
#[derive(Debug)]
pub struct Pixmap {
    pub width: u32,
    pub height: u32,
    pub encoded: Vec<u8>,
}

/// A node of a document's outline as the content engine reports it.
#[derive(Debug)]
pub struct Outline {
    /// The title of the entry.
    pub title: String,
    /// The link target as written in the document, if any.
    pub uri: Option<String>,
    /// The absolute number of the page that the entry leads to, if it
    /// leads to one.
    pub dest: Option<u32>,
    /// The entries below this one, in order.
    pub down: Vec<Outline>,
}

/// The mathematical content of an [`Outline`].
pub struct OutlineView {
    pub title: Seq<char>,
    pub uri: Option<Seq<char>>,
    pub dest: Option<u32>,
    pub down: Seq<OutlineView>,
}

/// The content of an outline node.
pub open spec fn outline_view(outline: Outline) -> OutlineView
    decreases outline, 1nat,
{
    OutlineView {
        title: outline.title@,
        uri: match outline.uri {
            Some(u) => Some(u@),
            None => None,
        },
        dest: outline.dest,
        down: outline_views(outline.down@),
    }
}

/// The contents of a sequence of outline nodes, in order.
pub open spec fn outline_views(outlines: Seq<Outline>) -> Seq<OutlineView>
    decreases outlines, 0nat,
{
    if outlines.len() == 0 {
        Seq::empty()
    } else {
        outline_views(outlines.drop_last()).push(outline_view(outlines.last()))
    }
}

impl View for Outline {
    type V = OutlineView;

    open spec fn view(&self) -> OutlineView {
        outline_view(*self)
    }
}

/// The contents of a sequence of outline nodes, one by one.
pub proof fn lemma_outline_views(outlines: Seq<Outline>)
    ensures
        outline_views(outlines).len() == outlines.len(),
        forall|k: int|
            0 <= k < outlines.len() ==> #[trigger] outline_views(outlines)[k] == outlines[k]@,
    decreases outlines.len(),
{
    if outlines.len() > 0 {
        lemma_outline_views(outlines.drop_last());
    }
}

} // verus!
