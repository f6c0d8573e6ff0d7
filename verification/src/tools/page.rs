//! Tools that work on one page: its size, its links, a search, a rendering.

use crate::engine::{Link, Pixmap};
use crate::error::{fails_with, DecodeFailure, ErrorView, MupdfServerError};
use crate::json::Number;
use crate::state::{accessed, DocumentStore, StoredDocument};
use crate::trusted::{base64_encode, standard_base64_decoding, standard_base64_encoding};
use vstd::prelude::*;
use vstd::string::StringExecFns;

verus! {

/// Whether `page` names a page of a document with `page_count` pages.
pub open spec fn page_in_range(page: int, page_count: int) -> bool {
    0 <= page < page_count
}

/// The highest page index of a document with `page_count` pages, as it is
/// reported in a failure: `page_count - 1`, except for the one count that
/// has no predecessor among the machine integers, which is reported as it
/// is.
pub open spec fn highest_page(page_count: int) -> int {
    if page_count > i32::MIN {
        page_count - 1
    } else {
        page_count
    }
}

/// The failure that a page outside a document with `page_count` pages
/// is refused with.
pub open spec fn out_of_range(page: int, page_count: int) -> ErrorView {
    ErrorView::InvalidPageNumber { page, total: page_count, max: highest_page(page_count) }
}

/// Accepts `page` if it names a page of a document with `page_count` pages.
pub fn validate_page_number(page_count: i32, page: i32) -> (checked: Result<(), MupdfServerError>)
    ensures
        page_in_range(page as int, page_count as int) ==> checked is Ok,
        !page_in_range(page as int, page_count as int) ==> fails_with(
            checked,
            out_of_range(page as int, page_count as int),
        ),
{
    if page < 0 || page >= page_count {
        let max = if page_count > i32::MIN {
            page_count - 1
        } else {
            page_count
        };
        return Err(MupdfServerError::InvalidPageNumber { page, total: page_count, max });
    }
    Ok(())
}

/// The failure that a call on page `page` of the session `id` ends in
/// before the content engine is asked, if there is one.
pub open spec fn refusal<H>(
    sessions: Map<Seq<char>, StoredDocument<H>>,
    id: Seq<char>,
    page: int,
) -> Option<ErrorView> {
    if !sessions.contains_key(id) {
        Some(ErrorView::DocumentNotFound(id))
    } else if !page_in_range(page, sessions[id].info.page_count as int) {
        Some(out_of_range(page, sessions[id].info.page_count as int))
    } else {
        None
    }
}

/// Looks up the session `id`, counts the call as an access, and checks
/// `page` against the page count recorded for the document.
pub fn access_page<'a, H>(store: &'a mut DocumentStore<H>, id: &str, page: i32) -> (found: Result<
    &'a H,
    MupdfServerError,
>)
    ensures
        accessed(old(store)@, final(store)@, id@),
        match found {
            Ok(document) => refusal(old(store)@, id@, page as int) is None
                && *document == old(store)@[id@].document,
            Err(e) => refusal(old(store)@, id@, page as int) == Some(e@),
        },
{
    let record = store.access(id)?;
    validate_page_number(record.info.page_count, page)?;
    Ok(&record.document)
}

/// The arguments of `get_page_bounds`.
#[derive(Debug)]
pub struct GetPageBoundsParams {
    pub document_id: String,
    /// The page, counted from zero.
    pub page: i32,
}

/// Reports the size and origin of a page as `measure` gives them.
/// `measure` is asked only once the session is found and the page number
/// is accepted, and its outcome is returned as it is.
pub fn get_page_bounds<H, B, E>(
    store: &mut DocumentStore<H>,
    params: GetPageBoundsParams,
    measure: E,
) -> (outcome: Result<B, MupdfServerError>)
    where E: FnOnce(&H, i32) -> Result<B, MupdfServerError>
    requires
        refusal(old(store)@, params.document_id@, params.page as int) is None ==> measure.requires(
            (&old(store)@[params.document_id@].document, params.page),
        ),
    ensures
        accessed(old(store)@, final(store)@, params.document_id@),
        match refusal(old(store)@, params.document_id@, params.page as int) {
            Some(e) => fails_with(outcome, e),
            None => measure.ensures(
                (&old(store)@[params.document_id@].document, params.page),
                outcome,
            ),
        },
{
    let document = access_page(store, params.document_id.as_str(), params.page)?;
    measure(document, params.page)
}

/// The arguments of `search_page`.
#[derive(Debug)]
pub struct SearchPageParams {
    pub document_id: String,
    /// The page, counted from zero.
    pub page: i32,
    /// The text to look for.
    pub query: String,
}

/// The matches of a search, each as the engine's quadrilateral.
#[derive(Debug)]
pub struct SearchPageResult<Q> {
    pub hits: Vec<Q>,
}

/// The most matches that one search reports.
pub const MAX_SEARCH_HITS: u32 = 100;

/// The matches that are reported of `found`: the first
/// [`MAX_SEARCH_HITS`], in order.
pub open spec fn capped<Q>(found: Seq<Q>) -> Seq<Q> {
    if found.len() > MAX_SEARCH_HITS {
        found.subrange(0, MAX_SEARCH_HITS as int)
    } else {
        found
    }
}

/// Drops the matches beyond the first [`MAX_SEARCH_HITS`].
pub fn cap_hits<Q>(found: Vec<Q>) -> (hits: Vec<Q>)
    ensures
        hits@ == capped(found@),
{
    let mut hits = found;
    if hits.len() > 100 {
        hits.truncate(100);
    }
    hits
}

/// How the outcome of a search follows from what the engine found.
pub open spec fn search_outcome<Q>(
    found: Result<Vec<Q>, MupdfServerError>,
    outcome: Result<SearchPageResult<Q>, MupdfServerError>,
) -> bool {
    match found {
        Ok(all) => outcome matches Ok(result) && result.hits@ == capped(all@),
        Err(e) => outcome == Err::<SearchPageResult<Q>, MupdfServerError>(e),
    }
}

/// Searches a page for `params.query`. `search` is asked, for at most
/// [`MAX_SEARCH_HITS`] matches, only once the session is found and the
/// page number is accepted; matches beyond the limit are dropped.
pub fn search_page<H, Q, E>(
    store: &mut DocumentStore<H>,
    params: SearchPageParams,
    search: E,
) -> (outcome: Result<SearchPageResult<Q>, MupdfServerError>)
    where E: FnOnce(&H, i32, &str, u32) -> Result<Vec<Q>, MupdfServerError>
    requires
        refusal(old(store)@, params.document_id@, params.page as int) is None ==> forall|
            query: &str,
        |
            query@ == params.query@ ==> #[trigger] search.requires(
                (&old(store)@[params.document_id@].document, params.page, query, MAX_SEARCH_HITS),
            ),
    ensures
        accessed(old(store)@, final(store)@, params.document_id@),
        match refusal(old(store)@, params.document_id@, params.page as int) {
            Some(e) => fails_with(outcome, e),
            None => exists|query: &str, found: Result<Vec<Q>, MupdfServerError>|
                query@ == params.query@ && #[trigger] search.ensures(
                    (
                        &old(store)@[params.document_id@].document,
                        params.page,
                        query,
                        MAX_SEARCH_HITS,
                    ),
                    found,
                ) && search_outcome(found, outcome),
        },
{
    let document = access_page(store, params.document_id.as_str(), params.page)?;
    match search(document, params.page, params.query.as_str(), MAX_SEARCH_HITS) {
        Ok(all) => Ok(SearchPageResult { hits: cap_hits(all) }),
        Err(e) => Err(e),
    }
}

/// The arguments of `render_page`.
#[derive(Debug)]
pub struct RenderPageParams {
    pub document_id: String,
    /// The page, counted from zero.
    pub page: i32,
    /// The factor by which both dimensions are scaled; 1 stands for 72
    /// dots per inch.
    pub scale: Number,
}

/// The scale that applies where a call names none.
pub fn default_scale() -> (scale: Number)
    ensures
        scale == Number::Unsigned(1),
{
    Number::Unsigned(1)
}

/// A rendered page as it is sent to the caller.
#[derive(Debug)]
pub struct RenderPageResult {
    /// The PNG image in standard Base64.
    pub image: String,
    /// The width of the image in pixels.
    pub width: u32,
    /// The height of the image in pixels.
    pub height: u32,
    /// The image format, always `png`.
    pub format: String,
}

/// Whether `bytes` begins with the signature of a PNG file.
pub open spec fn has_png_signature(bytes: Seq<u8>) -> bool {
    bytes.len() >= 4 && bytes[0] == 0x89 && bytes[1] == 0x50 && bytes[2] == 0x4E && bytes[3]
        == 0x47
}

/// Whether the Base64 text of `bytes` can be addressed in memory.
pub open spec fn encodable(bytes: Seq<u8>) -> bool {
    bytes.len() <= usize::MAX / 2
}

/// Whether `sent` is the rendered page `pixmap` as it is sent to the
/// caller, or the failure to send it: an image that does not begin with
/// the PNG signature is not sent under the name `png`, nor is one too
/// long to encode; any other is sent in standard Base64, with its size.
pub open spec fn sends(pixmap: Pixmap, sent: Result<RenderPageResult, MupdfServerError>) -> bool {
    if !has_png_signature(pixmap.encoded@) {
        fails_with(sent, ErrorView::Internal("rendered image is not a PNG"@))
    } else if !encodable(pixmap.encoded@) {
        fails_with(sent, ErrorView::Internal("rendered image is too large"@))
    } else {
        sent matches Ok(page) && page.image@ == standard_base64_encoding(pixmap.encoded@)
            && standard_base64_decoding(page.image@) == Ok::<Seq<u8>, DecodeFailure>(
            pixmap.encoded@,
        ) && page.width
            == pixmap.width && page.height == pixmap.height && page.format@ == "png"@
    }
}

/// Wraps a rendered page for the caller.
pub fn finish_render(pixmap: Pixmap) -> (outcome: Result<RenderPageResult, MupdfServerError>)
    ensures
        sends(pixmap, outcome),
{
    let bytes = &pixmap.encoded;
    if bytes.len() < 4 || bytes[0] != 0x89 || bytes[1] != 0x50 || bytes[2] != 0x4E || bytes[3]
        != 0x47 {
        return Err(MupdfServerError::internal("rendered image is not a PNG"));
    }
    if bytes.len() > usize::MAX / 2 {
        return Err(MupdfServerError::internal("rendered image is too large"));
    }
    let image = base64_encode(bytes);
    Ok(
        RenderPageResult {
            image,
            width: pixmap.width,
            height: pixmap.height,
            format: String::from_str("png"),
        },
    )
}

/// A page that was sent is a PNG: its image decodes to bytes that begin
/// with the PNG signature.
pub proof fn lemma_sent_page_is_png(pixmap: Pixmap, page: RenderPageResult)
    requires
        sends(pixmap, Ok::<RenderPageResult, MupdfServerError>(page)),
    ensures
        standard_base64_decoding(page.image@) matches Ok(bytes) && has_png_signature(bytes),
        page.format@ == "png"@,
{
}

/// How the outcome of a rendering follows from what the engine drew.
pub open spec fn render_outcome(
    drawn: Result<Pixmap, MupdfServerError>,
    outcome: Result<RenderPageResult, MupdfServerError>,
) -> bool {
    match drawn {
        Ok(pixmap) => sends(pixmap, outcome),
        Err(e) => outcome == Err::<RenderPageResult, MupdfServerError>(e),
    }
}

/// Renders a page. `render` is asked, with the scale of the call, only
/// once the session is found and the page number is accepted.
pub fn render_page<H, E>(
    store: &mut DocumentStore<H>,
    params: RenderPageParams,
    render: E,
) -> (outcome: Result<RenderPageResult, MupdfServerError>)
    where E: FnOnce(&H, i32, Number) -> Result<Pixmap, MupdfServerError>
    requires
        refusal(old(store)@, params.document_id@, params.page as int) is None ==> render.requires(
            (&old(store)@[params.document_id@].document, params.page, params.scale),
        ),
    ensures
        accessed(old(store)@, final(store)@, params.document_id@),
        match refusal(old(store)@, params.document_id@, params.page as int) {
            Some(e) => fails_with(outcome, e),
            None => exists|drawn: Result<Pixmap, MupdfServerError>| #[trigger]
                render.ensures(
                    (&old(store)@[params.document_id@].document, params.page, params.scale),
                    drawn,
                ) && render_outcome(drawn, outcome),
        },
{
    let document = access_page(store, params.document_id.as_str(), params.page)?;
    match render(document, params.page, params.scale) {
        Ok(pixmap) => finish_render(pixmap),
        Err(e) => Err(e),
    }
}

/// The arguments of `get_page_links`.
#[derive(Debug)]
pub struct GetPageLinksParams {
    pub document_id: String,
    /// The page, counted from zero.
    pub page: i32,
}

/// A hyperlink on a page as it is sent to the caller.
#[derive(Debug)]
pub struct PageLink<B> {
    /// Where the link stands on the page.
    pub bounds: B,
    /// The target as written in the document.
    pub uri: Option<String>,
    /// The page that the target leads to, where it leads to one.
    pub target_page: Option<i32>,
}

/// The links of a page.
#[derive(Debug)]
pub struct GetPageLinksResult<B> {
    pub links: Vec<PageLink<B>>,
}

/// The page number that is reported for a resolved target: the engine's
/// number where it found a page, nothing where it found none or failed.
pub open spec fn target_page_of(resolved: Result<Option<u32>, MupdfServerError>) -> Option<i32> {
    match resolved {
        Ok(Some(number)) => Some(number as i32),
        _ => None,
    }
}

/// The link that is sent for the engine's `link`.
pub open spec fn page_link_of<B>(link: Link<B>) -> PageLink<B> {
    PageLink {
        bounds: link.bounds,
        uri: Some(link.uri),
        target_page: target_page_of(link.resolved),
    }
}

/// Shapes one link for the caller.
pub fn to_page_link<B>(link: Link<B>) -> (sent: PageLink<B>)
    ensures
        sent == page_link_of(link),
{
    let target_page = match link.resolved {
        Ok(Some(number)) => Some(#[verifier::truncate] (number as i32)),
        _ => None,
    };
    PageLink { bounds: link.bounds, uri: Some(link.uri), target_page }
}

/// Shapes the links of a page for the caller, in the engine's order.
pub fn to_page_links<B>(links: Vec<Link<B>>) -> (sent: Vec<PageLink<B>>)
    ensures
        sent@ == links@.map_values(|link: Link<B>| page_link_of(link)),
{
    let mut sent: Vec<PageLink<B>> = Vec::new();
    for link in it: links
        invariant
            sent@.len() == it.index(),
            forall|k: int|
                0 <= k < sent@.len() ==> #[trigger] sent@[k] == page_link_of(it.seq()[k]),
    {
        sent.push(to_page_link(link));
    }
    assert(sent@ =~= links@.map_values(|link: Link<B>| page_link_of(link)));
    sent
}

/// How the outcome of listing links follows from what the engine found.
pub open spec fn links_outcome<B>(
    found: Result<Vec<Link<B>>, MupdfServerError>,
    outcome: Result<GetPageLinksResult<B>, MupdfServerError>,
) -> bool {
    match found {
        Ok(all) => outcome matches Ok(result) && result.links@ == all@.map_values(
            |link: Link<B>| page_link_of(link),
        ),
        Err(e) => outcome == Err::<GetPageLinksResult<B>, MupdfServerError>(e),
    }
}

/// Lists the hyperlinks of a page. `find_links` is asked only once the
/// session is found and the page number is accepted.
pub fn get_page_links<H, B, E>(
    store: &mut DocumentStore<H>,
    params: GetPageLinksParams,
    find_links: E,
) -> (outcome: Result<GetPageLinksResult<B>, MupdfServerError>)
    where E: FnOnce(&H, i32) -> Result<Vec<Link<B>>, MupdfServerError>
    requires
        refusal(old(store)@, params.document_id@, params.page as int) is None
            ==> find_links.requires((&old(store)@[params.document_id@].document, params.page)),
    ensures
        accessed(old(store)@, final(store)@, params.document_id@),
        match refusal(old(store)@, params.document_id@, params.page as int) {
            Some(e) => fails_with(outcome, e),
            None => exists|found: Result<Vec<Link<B>>, MupdfServerError>| #[trigger]
                find_links.ensures(
                    (&old(store)@[params.document_id@].document, params.page),
                    found,
                ) && links_outcome(found, outcome),
        },
{
    let document = access_page(store, params.document_id.as_str(), params.page)?;
    match find_links(document, params.page) {
        Ok(all) => Ok(GetPageLinksResult { links: to_page_links(all) }),
        Err(e) => Err(e),
    }
}

} // verus!
