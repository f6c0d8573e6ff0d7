//! Tools that extract the text of a page.

use crate::engine::{GlyphBlock, GlyphLine};
use crate::error::{fails_with, ErrorView, MupdfServerError};
use crate::state::{accessed, DocumentStore, StoredDocument};
use crate::tools::page::{access_page, refusal};
use crate::trusted::{str_equal, string_push};
use vstd::prelude::*;
use vstd::string::StringExecFns;

verus! {

/// The forms in which the text of a page can be had.
#[derive(Clone, Copy, Debug, PartialEq, Eq, Structural)]
pub enum TextFormat {
    /// The characters alone, line by line.
    Plain,
    /// The engine's HTML rendition.
    Html,
    /// The engine's JSON rendition.
    Json,
    /// The engine's XML rendition.
    Xml,
}

/// The format that `name` stands for, if it stands for one.
pub open spec fn format_named(name: Seq<char>) -> Option<TextFormat> {
    if name == "plain"@ {
        Some(TextFormat::Plain)
    } else if name == "html"@ {
        Some(TextFormat::Html)
    } else if name == "json"@ {
        Some(TextFormat::Json)
    } else if name == "xml"@ {
        Some(TextFormat::Xml)
    } else {
        None
    }
}

impl TextFormat {
    /// Reads the name of a format. Any name but `plain`, `html`, `json`
    /// and `xml` is refused.
    pub fn parse(name: &str) -> (parsed: Result<TextFormat, MupdfServerError>)
        ensures
            match format_named(name@) {
                Some(format) => parsed == Ok::<TextFormat, MupdfServerError>(format),
                None => fails_with(parsed, ErrorView::InvalidTextFormat(name@)),
            },
    {
        if str_equal(name, "plain") {
            Ok(TextFormat::Plain)
        } else if str_equal(name, "html") {
            Ok(TextFormat::Html)
        } else if str_equal(name, "json") {
            Ok(TextFormat::Json)
        } else if str_equal(name, "xml") {
            Ok(TextFormat::Xml)
        } else {
            Err(MupdfServerError::InvalidTextFormat(String::from_str(name)))
        }
    }
}

/// The format that applies where a call names none.
pub fn default_text_format() -> (name: String)
    ensures
        name@ == "plain"@,
        format_named(name@) == Some(TextFormat::Plain),
{
    String::from_str("plain")
}

/// The characters of a line: those of its glyphs that stand for one, in
/// order.
pub open spec fn line_chars(glyphs: Seq<Option<char>>) -> Seq<char>
    decreases glyphs.len(),
{
    if glyphs.len() == 0 {
        Seq::empty()
    } else {
        match glyphs.last() {
            Some(c) => line_chars(glyphs.drop_last()).push(c),
            None => line_chars(glyphs.drop_last()),
        }
    }
}

/// The plain text of some lines: each line followed by a line break.
pub open spec fn lines_text<B>(lines: Seq<GlyphLine<B>>) -> Seq<char>
    decreases lines.len(),
{
    if lines.len() == 0 {
        Seq::empty()
    } else {
        lines_text(lines.drop_last()) + line_chars(lines.last().glyphs@).push('\n')
    }
}

/// The plain text of some blocks: the lines of each block followed by one
/// more line break, which leaves a blank line between blocks.
pub open spec fn blocks_text<B>(blocks: Seq<GlyphBlock<B>>) -> Seq<char>
    decreases blocks.len(),
{
    if blocks.len() == 0 {
        Seq::empty()
    } else {
        blocks_text(blocks.drop_last()) + lines_text(blocks.last().lines@).push('\n')
    }
}

/// Appends the characters of a line to `out`.
pub fn push_line_chars(out: &mut String, glyphs: &Vec<Option<char>>)
    ensures
        final(out)@ == old(out)@ + line_chars(glyphs@),
{
    let mut i: usize = 0;
    assert(glyphs@.subrange(0, 0) =~= Seq::<Option<char>>::empty());
    assert(out@ =~= old(out)@ + line_chars(glyphs@.subrange(0, 0)));
    while i < glyphs.len()
        invariant
            i <= glyphs@.len(),
            out@ == old(out)@ + line_chars(glyphs@.subrange(0, i as int)),
        decreases glyphs@.len() - i,
    {
        let ghost upto = glyphs@.subrange(0, i as int + 1);
        assert(upto.drop_last() =~= glyphs@.subrange(0, i as int));
        assert(upto.last() == glyphs@[i as int]);
        match glyphs[i] {
            Some(c) => {
                string_push(out, c);
                assert(out@ =~= old(out)@ + line_chars(upto));
            },
            None => {},
        }
        i += 1;
    }
    assert(glyphs@.subrange(0, i as int) =~= glyphs@);
}

/// The characters of a line as a text of their own.
pub fn line_text(glyphs: &Vec<Option<char>>) -> (text: String)
    ensures
        text@ == line_chars(glyphs@),
{
    let mut text = String::new();
    push_line_chars(&mut text, glyphs);
    assert(text@ =~= line_chars(glyphs@));
    text
}

/// Appends the plain text of some lines to `out`.
pub fn push_lines_text<B>(out: &mut String, lines: &Vec<GlyphLine<B>>)
    ensures
        final(out)@ == old(out)@ + lines_text(lines@),
{
    let mut i: usize = 0;
    assert(lines@.subrange(0, 0) =~= Seq::<GlyphLine<B>>::empty());
    assert(out@ =~= old(out)@ + lines_text(lines@.subrange(0, 0)));
    while i < lines.len()
        invariant
            i <= lines@.len(),
            out@ == old(out)@ + lines_text(lines@.subrange(0, i as int)),
        decreases lines@.len() - i,
    {
        let ghost upto = lines@.subrange(0, i as int + 1);
        assert(upto.drop_last() =~= lines@.subrange(0, i as int));
        assert(upto.last() == lines@[i as int]);
        push_line_chars(out, &lines[i].glyphs);
        string_push(out, '\n');
        assert(out@ =~= old(out)@ + lines_text(upto));
        i += 1;
    }
    assert(lines@.subrange(0, i as int) =~= lines@);
}

/// The plain text of a page: every line of every block followed by a line
/// break, and one more line break after each block.
pub fn plain_text<B>(blocks: &Vec<GlyphBlock<B>>) -> (text: String)
    ensures
        text@ == blocks_text(blocks@),
{
    let mut text = String::new();
    let mut i: usize = 0;
    assert(blocks@.subrange(0, 0) =~= Seq::<GlyphBlock<B>>::empty());
    while i < blocks.len()
        invariant
            i <= blocks@.len(),
            text@ == blocks_text(blocks@.subrange(0, i as int)),
        decreases blocks@.len() - i,
    {
        let ghost upto = blocks@.subrange(0, i as int + 1);
        let ghost before = text@;
        assert(upto.drop_last() =~= blocks@.subrange(0, i as int));
        assert(upto.last() == blocks@[i as int]);
        push_lines_text(&mut text, &blocks[i].lines);
        string_push(&mut text, '\n');
        assert(text@ =~= before + lines_text(blocks@[i as int].lines@).push('\n'));
        i += 1;
    }
    assert(blocks@.subrange(0, i as int) =~= blocks@);
    text
}

/// The arguments of `get_page_text`.
#[derive(Debug)]
pub struct GetPageTextParams {
    pub document_id: String,
    /// The page, counted from zero.
    pub page: i32,
    /// The name of the format: `plain`, `html`, `json` or `xml`.
    pub format: String,
}

/// The text of a page.
#[derive(Debug)]
pub struct GetPageTextResult {
    /// The text in the requested format.
    pub text: String,
    /// The name of the format, as it was requested.
    pub format: String,
}

/// The failure that a request for the text of a page ends in before the
/// content engine is asked, if there is one. The session is looked up
/// first, then the page number is checked, then the format.
pub open spec fn text_refusal<H>(
    sessions: Map<Seq<char>, StoredDocument<H>>,
    id: Seq<char>,
    page: int,
    format: Seq<char>,
) -> Option<ErrorView> {
    match refusal(sessions, id, page) {
        Some(e) => Some(e),
        None => if format_named(format) is None {
            Some(ErrorView::InvalidTextFormat(format))
        } else {
            None
        },
    }
}

/// How the outcome of a request for plain text follows from the glyphs
/// that the engine laid out.
pub open spec fn plain_outcome<B>(
    laid_out: Result<Vec<GlyphBlock<B>>, MupdfServerError>,
    format: String,
    outcome: Result<GetPageTextResult, MupdfServerError>,
) -> bool {
    match laid_out {
        Ok(blocks) => outcome matches Ok(sent) && sent.text@ == blocks_text(blocks@) && sent.format
            == format,
        Err(e) => outcome == Err::<GetPageTextResult, MupdfServerError>(e),
    }
}

/// How the outcome of a request for a rendition follows from what the
/// engine wrote.
pub open spec fn rendition_outcome(
    written: Result<String, MupdfServerError>,
    format: String,
    outcome: Result<GetPageTextResult, MupdfServerError>,
) -> bool {
    match written {
        Ok(text) => outcome == Ok::<GetPageTextResult, MupdfServerError>(
            GetPageTextResult { text, format },
        ),
        Err(e) => outcome == Err::<GetPageTextResult, MupdfServerError>(e),
    }
}

/// Extracts the text of a page in the requested format. The engine is
/// asked only once the session is found, the page number is accepted and
/// the format is known: `lay_out` for plain text, which is then put
/// together line by line, and `write` for the other formats, whose text is
/// passed on as it is.
pub fn get_page_text<H, B, L, W>(
    store: &mut DocumentStore<H>,
    params: GetPageTextParams,
    lay_out: L,
    write: W,
) -> (outcome: Result<GetPageTextResult, MupdfServerError>)
    where
        L: FnOnce(&H, i32) -> Result<Vec<GlyphBlock<B>>, MupdfServerError>,
        W: FnOnce(&H, i32, TextFormat) -> Result<String, MupdfServerError>,
    requires
        text_refusal(old(store)@, params.document_id@, params.page as int, params.format@)
            is None ==> lay_out.requires((&old(store)@[params.document_id@].document, params.page))
            && forall|format: TextFormat|
            format != TextFormat::Plain ==> #[trigger] write.requires(
                (&old(store)@[params.document_id@].document, params.page, format),
            ),
    ensures
        accessed(old(store)@, final(store)@, params.document_id@),
        match text_refusal(old(store)@, params.document_id@, params.page as int, params.format@) {
            Some(e) => fails_with(outcome, e),
            None => if format_named(params.format@) == Some(TextFormat::Plain) {
                exists|laid_out: Result<Vec<GlyphBlock<B>>, MupdfServerError>| #[trigger]
                    lay_out.ensures(
                        (&old(store)@[params.document_id@].document, params.page),
                        laid_out,
                    ) && plain_outcome(laid_out, params.format, outcome)
            } else {
                exists|written: Result<String, MupdfServerError>| #[trigger]
                    write.ensures(
                        (
                            &old(store)@[params.document_id@].document,
                            params.page,
                            format_named(params.format@)->0,
                        ),
                        written,
                    ) && rendition_outcome(written, params.format, outcome)
            },
        },
{
    let document = access_page(store, params.document_id.as_str(), params.page)?;
    let format = TextFormat::parse(params.format.as_str())?;
    let text = match format {
        TextFormat::Plain => {
            let blocks = lay_out(document, params.page)?;
            plain_text(&blocks)
        },
        _ => write(document, params.page, format)?,
    };
    Ok(GetPageTextResult { text, format: params.format })
}

/// The arguments of `get_page_text_blocks`.
#[derive(Debug)]
pub struct GetPageTextBlocksParams {
    pub document_id: String,
    /// The page, counted from zero.
    pub page: i32,
}

/// A line of text and where it stands on the page.
#[derive(Debug)]
pub struct TextLine<B> {
    pub bounds: B,
    pub text: String,
}

/// A block of text and where it stands on the page.
#[derive(Debug)]
pub struct TextBlock<B> {
    pub bounds: B,
    pub lines: Vec<TextLine<B>>,
}

/// The text of a page, block by block.
#[derive(Debug)]
pub struct GetPageTextBlocksResult<B> {
    pub blocks: Vec<TextBlock<B>>,
}

/// Whether `sent` is the line `line` with its glyphs put together.
pub open spec fn is_line_of<B>(sent: TextLine<B>, line: GlyphLine<B>) -> bool {
    sent.bounds == line.bounds && sent.text@ == line_chars(line.glyphs@)
}

/// Whether `sent` is the block `block` with the glyphs of each line put
/// together.
pub open spec fn is_block_of<B>(sent: TextBlock<B>, block: GlyphBlock<B>) -> bool {
    &&& sent.bounds == block.bounds
    &&& sent.lines@.len() == block.lines@.len()
    &&& forall|j: int|
        0 <= j < sent.lines@.len() ==> is_line_of(#[trigger] sent.lines@[j], block.lines@[j])
}

/// Whether `sent` holds the blocks `blocks`, in order, with the glyphs of
/// each line put together.
pub open spec fn are_blocks_of<B>(sent: Seq<TextBlock<B>>, blocks: Seq<GlyphBlock<B>>) -> bool {
    &&& sent.len() == blocks.len()
    &&& forall|i: int| 0 <= i < sent.len() ==> is_block_of(#[trigger] sent[i], blocks[i])
}

/// Puts the glyphs of a line together.
pub fn to_text_line<B>(line: GlyphLine<B>) -> (sent: TextLine<B>)
    ensures
        is_line_of(sent, line),
{
    let text = line_text(&line.glyphs);
    TextLine { bounds: line.bounds, text }
}

/// Puts the glyphs of each line of a block together.
pub fn to_text_block<B>(block: GlyphBlock<B>) -> (sent: TextBlock<B>)
    ensures
        is_block_of(sent, block),
{
    let mut lines: Vec<TextLine<B>> = Vec::new();
    for line in it: block.lines
        invariant
            lines@.len() == it.index(),
            forall|j: int| 0 <= j < lines@.len() ==> is_line_of(#[trigger] lines@[j], it.seq()[j]),
    {
        lines.push(to_text_line(line));
    }
    TextBlock { bounds: block.bounds, lines }
}

/// Puts the glyphs of each line of each block together.
pub fn to_text_blocks<B>(blocks: Vec<GlyphBlock<B>>) -> (sent: Vec<TextBlock<B>>)
    ensures
        are_blocks_of(sent@, blocks@),
{
    let mut sent: Vec<TextBlock<B>> = Vec::new();
    for block in it: blocks
        invariant
            sent@.len() == it.index(),
            forall|i: int| 0 <= i < sent@.len() ==> is_block_of(#[trigger] sent@[i], it.seq()[i]),
    {
        sent.push(to_text_block(block));
    }
    sent
}

/// How the outcome of a request for text blocks follows from the glyphs
/// that the engine laid out.
pub open spec fn blocks_outcome<B>(
    laid_out: Result<Vec<GlyphBlock<B>>, MupdfServerError>,
    outcome: Result<GetPageTextBlocksResult<B>, MupdfServerError>,
) -> bool {
    match laid_out {
        Ok(blocks) => outcome matches Ok(sent) && are_blocks_of(sent.blocks@, blocks@),
        Err(e) => outcome == Err::<GetPageTextBlocksResult<B>, MupdfServerError>(e),
    }
}

/// Extracts the text of a page block by block and line by line, each
/// with its place on the page. `lay_out` is asked only once the session is
/// found and the page number is accepted.
pub fn get_page_text_blocks<H, B, L>(
    store: &mut DocumentStore<H>,
    params: GetPageTextBlocksParams,
    lay_out: L,
) -> (outcome: Result<GetPageTextBlocksResult<B>, MupdfServerError>)
    where L: FnOnce(&H, i32) -> Result<Vec<GlyphBlock<B>>, MupdfServerError>
    requires
        refusal(old(store)@, params.document_id@, params.page as int) is None ==> lay_out.requires(
            (&old(store)@[params.document_id@].document, params.page),
        ),
    ensures
        accessed(old(store)@, final(store)@, params.document_id@),
        match refusal(old(store)@, params.document_id@, params.page as int) {
            Some(e) => fails_with(outcome, e),
            None => exists|laid_out: Result<Vec<GlyphBlock<B>>, MupdfServerError>| #[trigger]
                lay_out.ensures(
                    (&old(store)@[params.document_id@].document, params.page),
                    laid_out,
                ) && blocks_outcome(laid_out, outcome),
        },
{
    let document = access_page(store, params.document_id.as_str(), params.page)?;
    match lay_out(document, params.page) {
        Ok(blocks) => Ok(GetPageTextBlocksResult { blocks: to_text_blocks(blocks) }),
        Err(e) => Err(e),
    }
}

} // verus!
