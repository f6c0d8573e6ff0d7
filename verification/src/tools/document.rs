//! Tools that work on a document as a whole: its page count, its
//! information dictionary, its outline.

use crate::engine::{lemma_outline_views, outline_views, MetadataName, Outline, OutlineView};
use crate::error::{fails_with, ErrorView, MupdfServerError};
use crate::state::{accessed, info_of, DocumentInfo, DocumentStore};
use crate::trusted::str_starts_with;
use vstd::prelude::*;

verus! {

/// The arguments of `get_page_count`.
#[derive(Debug)]
pub struct GetPageCountParams {
    pub document_id: String,
}

/// The number of pages of a document.
#[derive(Debug)]
pub struct GetPageCountResult {
    pub page_count: i32,
}

/// Reports the page count recorded for the session. This reads the
/// record only and does not count as an access.
pub fn get_page_count<H>(store: &DocumentStore<H>, params: GetPageCountParams) -> (outcome: Result<
    GetPageCountResult,
    MupdfServerError,
>)
    ensures
        match outcome {
            Ok(result) => info_of(store@, params.document_id@) matches Ok(info)
                && result.page_count == info.page_count,
            Err(e) => info_of(store@, params.document_id@) == Err::<DocumentInfo, ErrorView>(e@),
        },
{
    let info = store.get_info(params.document_id.as_str())?;
    Ok(GetPageCountResult { page_count: info.page_count })
}

/// The text of an optional string.
pub open spec fn text_of(value: Option<String>) -> Option<Seq<char>> {
    match value {
        Some(text) => Some(text@),
        None => None,
    }
}

/// An entry of a document's outline as it is sent to the caller.
#[derive(Debug)]
pub struct OutlineEntry {
    /// The title of the entry.
    pub title: String,
    /// The page that the entry leads to, counted from zero.
    pub page: Option<i32>,
    /// The address that the entry leads to, if it lies outside the document.
    pub uri: Option<String>,
    /// The entries below this one, in order.
    pub children: Vec<OutlineEntry>,
}

/// The mathematical content of an [`OutlineEntry`].
pub struct OutlineEntryView {
    pub title: Seq<char>,
    pub page: Option<i32>,
    pub uri: Option<Seq<char>>,
    pub children: Seq<OutlineEntryView>,
}

/// The content of an entry.
pub open spec fn entry_view(entry: OutlineEntry) -> OutlineEntryView
    decreases entry, 1nat,
{
    OutlineEntryView {
        title: entry.title@,
        page: entry.page,
        uri: text_of(entry.uri),
        children: entry_views(entry.children@),
    }
}

/// The contents of a sequence of entries, in order.
pub open spec fn entry_views(entries: Seq<OutlineEntry>) -> Seq<OutlineEntryView>
    decreases entries, 0nat,
{
    if entries.len() == 0 {
        Seq::empty()
    } else {
        entry_views(entries.drop_last()).push(entry_view(entries.last()))
    }
}

impl View for OutlineEntry {
    type V = OutlineEntryView;

    open spec fn view(&self) -> OutlineEntryView {
        entry_view(*self)
    }
}

/// The contents of a sequence of entries, one by one.
pub proof fn lemma_entry_views(entries: Seq<OutlineEntry>)
    ensures
        entry_views(entries).len() == entries.len(),
        forall|k: int| 0 <= k < entries.len() ==> #[trigger] entry_views(entries)[k] == entries[k]@,
    decreases entries.len(),
{
    if entries.len() > 0 {
        lemma_entry_views(entries.drop_last());
    }
}

/// Whether an address leads outside the document: it is a web address or
/// a mail address.
pub open spec fn is_external(uri: Seq<char>) -> bool {
    "http://"@.is_prefix_of(uri) || "https://"@.is_prefix_of(uri) || "mailto:"@.is_prefix_of(uri)
}

/// The address that is kept of an entry's target: the target itself where
/// it leads outside the document, and none otherwise.
pub open spec fn kept_uri(uri: Option<Seq<char>>) -> Option<Seq<char>> {
    match uri {
        Some(address) => if is_external(address) {
            Some(address)
        } else {
            None
        },
        None => None,
    }
}

/// The page that is reported for a destination: the engine's page number
/// as a signed number.
pub open spec fn page_of(dest: Option<u32>) -> Option<i32> {
    match dest {
        Some(number) => Some(number as i32),
        None => None,
    }
}

/// The entry that is sent for the engine's outline node, with the same
/// shape below it.
pub open spec fn converted(outline: OutlineView) -> OutlineEntryView
    decreases outline, 1nat,
{
    OutlineEntryView {
        title: outline.title,
        page: page_of(outline.dest),
        uri: kept_uri(outline.uri),
        children: converted_all(outline.down),
    }
}

/// The entries that are sent for a sequence of outline nodes, in order.
pub open spec fn converted_all(outlines: Seq<OutlineView>) -> Seq<OutlineEntryView>
    decreases outlines, 0nat,
{
    if outlines.len() == 0 {
        Seq::empty()
    } else {
        converted_all(outlines.drop_last()).push(converted(outlines.last()))
    }
}

/// The entries that are sent for a sequence of outline nodes, one by one.
pub proof fn lemma_converted_all(outlines: Seq<OutlineView>)
    ensures
        converted_all(outlines).len() == outlines.len(),
        forall|k: int|
            0 <= k < outlines.len() ==> #[trigger] converted_all(outlines)[k] == converted(
                outlines[k],
            ),
    decreases outlines.len(),
{
    if outlines.len() > 0 {
        lemma_converted_all(outlines.drop_last());
    }
}

/// Entries that are one by one what is sent for the nodes `outlines` are,
/// taken together, what is sent for the sequence.
pub proof fn lemma_converted_each(entries: Seq<OutlineEntry>, outlines: Seq<Outline>)
    requires
        entries.len() == outlines.len(),
        forall|k: int|
            0 <= k < entries.len() ==> (#[trigger] entries[k])@ == converted(outlines[k]@),
    ensures
        entry_views(entries) == converted_all(outline_views(outlines)),
{
    lemma_entry_views(entries);
    lemma_outline_views(outlines);
    lemma_converted_all(outline_views(outlines));
    assert(entry_views(entries) =~= converted_all(outline_views(outlines)));
}

fn keep_external(uri: &Option<String>) -> (kept: Option<String>)
    ensures
        text_of(kept) == kept_uri(text_of(*uri)),
{
    match uri {
        Some(address) => {
            let text = address.as_str();
            if str_starts_with(text, "http://") || str_starts_with(text, "https://")
                || str_starts_with(text, "mailto:") {
                Some(address.clone())
            } else {
                None
            }
        },
        None => None,
    }
}

/// Shapes an outline node and everything below it for the caller.
pub fn convert_outline(outline: &Outline) -> (entry: OutlineEntry)
    ensures
        entry@ == converted(outline@),
    decreases outline,
{
    let page = match outline.dest {
        Some(number) => Some(#[verifier::truncate] (number as i32)),
        None => None,
    };
    let uri = keep_external(&outline.uri);
    let mut children: Vec<OutlineEntry> = Vec::new();
    let mut i: usize = 0;
    while i < outline.down.len()
        invariant
            i <= outline.down@.len(),
            children@.len() == i,
            forall|k: int|
                0 <= k < i ==> (#[trigger] children@[k])@ == converted(outline.down@[k]@),
        decreases outline.down@.len() - i,
    {
        children.push(convert_outline(&outline.down[i]));
        i += 1;
    }
    let entry = OutlineEntry { title: outline.title.clone(), page, uri, children };
    proof {
        lemma_converted_each(entry.children@, outline.down@);
    }
    entry
}

/// Shapes a sequence of outline nodes for the caller, in order.
pub fn convert_outlines(outlines: &Vec<Outline>) -> (entries: Vec<OutlineEntry>)
    ensures
        entry_views(entries@) == converted_all(outline_views(outlines@)),
{
    let mut entries: Vec<OutlineEntry> = Vec::new();
    let mut i: usize = 0;
    while i < outlines.len()
        invariant
            i <= outlines@.len(),
            entries@.len() == i,
            forall|k: int| 0 <= k < i ==> (#[trigger] entries@[k])@ == converted(outlines@[k]@),
        decreases outlines@.len() - i,
    {
        entries.push(convert_outline(&outlines[i]));
        i += 1;
    }
    proof {
        lemma_converted_each(entries@, outlines@);
    }
    entries
}

/// The arguments of `get_outlines`.
#[derive(Debug)]
pub struct GetOutlinesParams {
    pub document_id: String,
}

/// The outline of a document.
#[derive(Debug)]
pub struct GetOutlinesResult {
    /// The entries of the top level, in order.
    pub outlines: Vec<OutlineEntry>,
}

/// How the outcome of a request for the outline follows from the outline
/// that the engine read.
pub open spec fn outlines_outcome(
    read: Result<Vec<Outline>, MupdfServerError>,
    outcome: Result<GetOutlinesResult, MupdfServerError>,
) -> bool {
    match read {
        Ok(outlines) => outcome matches Ok(sent) && entry_views(sent.outlines@) == converted_all(
            outline_views(outlines@),
        ),
        Err(e) => outcome == Err::<GetOutlinesResult, MupdfServerError>(e),
    }
}

/// Reports the outline of a document as a tree. `read_outlines` is asked
/// only once the session is found.
pub fn get_outlines<H, E>(
    store: &mut DocumentStore<H>,
    params: GetOutlinesParams,
    read_outlines: E,
) -> (outcome: Result<GetOutlinesResult, MupdfServerError>)
    where E: FnOnce(&H) -> Result<Vec<Outline>, MupdfServerError>
    requires
        old(store)@.contains_key(params.document_id@) ==> read_outlines.requires(
            (&old(store)@[params.document_id@].document,),
        ),
    ensures
        accessed(old(store)@, final(store)@, params.document_id@),
        if old(store)@.contains_key(params.document_id@) {
            exists|read: Result<Vec<Outline>, MupdfServerError>| #[trigger]
                read_outlines.ensures((&old(store)@[params.document_id@].document,), read)
                    && outlines_outcome(read, outcome)
        } else {
            fails_with(outcome, ErrorView::DocumentNotFound(params.document_id@))
        },
{
    let record = store.access(params.document_id.as_str())?;
    match read_outlines(&record.document) {
        Ok(outlines) => Ok(GetOutlinesResult { outlines: convert_outlines(&outlines) }),
        Err(e) => Err(e),
    }
}

/// The arguments of `get_metadata`.
#[derive(Debug)]
pub struct GetMetadataParams {
    pub document_id: String,
}

/// The information dictionary of a document. An entry that is missing,
/// unreadable or empty is absent.
#[derive(Debug)]
pub struct GetMetadataResult {
    pub title: Option<String>,
    pub author: Option<String>,
    pub subject: Option<String>,
    pub keywords: Option<String>,
    pub creator: Option<String>,
    pub producer: Option<String>,
    pub creation_date: Option<String>,
    pub modification_date: Option<String>,
}

/// What is kept of an entry as the engine read it: the text, unless the
/// engine failed or the text is empty.
pub open spec fn present(value: Result<String, MupdfServerError>) -> Option<String> {
    match value {
        Ok(text) => if text@.len() == 0 {
            None
        } else {
            Some(text)
        },
        Err(_) => None,
    }
}

/// Keeps an entry of the information dictionary if it was read and is
/// not empty.
pub fn normalize_metadata(value: Result<String, MupdfServerError>) -> (kept: Option<String>)
    ensures
        kept == present(value),
{
    match value {
        Ok(text) => if text.as_str().is_empty() {
            None
        } else {
            Some(text)
        },
        Err(_) => None,
    }
}

/// Whether `kept` is what is kept of the entry `name` as `read` gives it
/// for `document`.
pub open spec fn entry_read<H, E: Fn(&H, MetadataName) -> Result<String, MupdfServerError>>(
    read: E,
    document: H,
    name: MetadataName,
    kept: Option<String>,
) -> bool {
    exists|value: Result<String, MupdfServerError>| #[trigger]
        read.ensures((&document, name), value) && kept == present(value)
}

/// Reports the information dictionary of a document. `read` is asked for
/// each entry, only once the session is found; a failure to read an entry
/// leaves that entry absent and does not fail the call.
pub fn get_metadata<H, E>(
    store: &mut DocumentStore<H>,
    params: GetMetadataParams,
    read: E,
) -> (outcome: Result<GetMetadataResult, MupdfServerError>)
    where E: Fn(&H, MetadataName) -> Result<String, MupdfServerError>
    requires
        old(store)@.contains_key(params.document_id@) ==> forall|name: MetadataName| #[trigger]
            read.requires((&old(store)@[params.document_id@].document, name)),
    ensures
        accessed(old(store)@, final(store)@, params.document_id@),
        match outcome {
            Ok(sent) => {
                let document = old(store)@[params.document_id@].document;
                &&& old(store)@.contains_key(params.document_id@)
                &&& entry_read(read, document, MetadataName::Title, sent.title)
                &&& entry_read(read, document, MetadataName::Author, sent.author)
                &&& entry_read(read, document, MetadataName::Subject, sent.subject)
                &&& entry_read(read, document, MetadataName::Keywords, sent.keywords)
                &&& entry_read(read, document, MetadataName::Creator, sent.creator)
                &&& entry_read(read, document, MetadataName::Producer, sent.producer)
                &&& entry_read(read, document, MetadataName::CreationDate, sent.creation_date)
                &&& entry_read(read, document, MetadataName::ModDate, sent.modification_date)
            },
            Err(e) => !old(store)@.contains_key(params.document_id@) && e@
                == ErrorView::DocumentNotFound(params.document_id@),
        },
{
    let record = store.access(params.document_id.as_str())?;
    let document = &record.document;
    Ok(
        GetMetadataResult {
            title: normalize_metadata(read(document, MetadataName::Title)),
            author: normalize_metadata(read(document, MetadataName::Author)),
            subject: normalize_metadata(read(document, MetadataName::Subject)),
            keywords: normalize_metadata(read(document, MetadataName::Keywords)),
            creator: normalize_metadata(read(document, MetadataName::Creator)),
            producer: normalize_metadata(read(document, MetadataName::Producer)),
            creation_date: normalize_metadata(read(document, MetadataName::CreationDate)),
            modification_date: normalize_metadata(read(document, MetadataName::ModDate)),
        },
    )
}

/// The arguments of `needs_password`.
#[derive(Debug)]
pub struct NeedsPasswordParams {
    pub document_id: String,
}

/// Whether a document is protected by a password.
#[derive(Debug)]
pub struct NeedsPasswordResult {
    pub needs_password: bool,
}

/// How the outcome of the tool follows from the answer of the engine.
pub open spec fn protection_outcome(
    answer: Result<bool, MupdfServerError>,
    outcome: Result<NeedsPasswordResult, MupdfServerError>,
) -> bool {
    match answer {
        Ok(needed) => outcome == Ok::<NeedsPasswordResult, MupdfServerError>(
            NeedsPasswordResult { needs_password: needed },
        ),
        Err(e) => outcome == Err::<NeedsPasswordResult, MupdfServerError>(e),
    }
}

/// Reports whether a document is protected by a password, as `ask` says.
/// `ask` is asked only once the session is found.
pub fn needs_password<H, E>(
    store: &mut DocumentStore<H>,
    params: NeedsPasswordParams,
    ask: E,
) -> (outcome: Result<NeedsPasswordResult, MupdfServerError>)
    where E: FnOnce(&H) -> Result<bool, MupdfServerError>
    requires
        old(store)@.contains_key(params.document_id@) ==> ask.requires(
            (&old(store)@[params.document_id@].document,),
        ),
    ensures
        accessed(old(store)@, final(store)@, params.document_id@),
        if old(store)@.contains_key(params.document_id@) {
            exists|answer: Result<bool, MupdfServerError>| #[trigger]
                ask.ensures((&old(store)@[params.document_id@].document,), answer)
                    && protection_outcome(answer, outcome)
        } else {
            fails_with(outcome, ErrorView::DocumentNotFound(params.document_id@))
        },
{
    let record = store.access(params.document_id.as_str())?;
    match ask(&record.document) {
        Ok(needed) => Ok(NeedsPasswordResult { needs_password: needed }),
        Err(e) => Err(e),
    }
}

/// The arguments of `is_pdf`.
#[derive(Debug)]
pub struct IsPdfParams {
    pub document_id: String,
}

/// Whether a document is a PDF.
#[derive(Debug)]
pub struct IsPdfResult {
    pub is_pdf: bool,
}

/// Reports whether a document is a PDF, as `ask` says. `ask` is asked
/// only once the session is found.
pub fn is_pdf<H, E>(store: &mut DocumentStore<H>, params: IsPdfParams, ask: E) -> (outcome: Result<
    IsPdfResult,
    MupdfServerError,
>)
    where E: FnOnce(&H) -> bool
    requires
        old(store)@.contains_key(params.document_id@) ==> ask.requires(
            (&old(store)@[params.document_id@].document,),
        ),
    ensures
        accessed(old(store)@, final(store)@, params.document_id@),
        match outcome {
            Ok(sent) => old(store)@.contains_key(params.document_id@) && ask.ensures(
                (&old(store)@[params.document_id@].document,),
                sent.is_pdf,
            ),
            Err(e) => !old(store)@.contains_key(params.document_id@) && e@
                == ErrorView::DocumentNotFound(params.document_id@),
        },
{
    let record = store.access(params.document_id.as_str())?;
    Ok(IsPdfResult { is_pdf: ask(&record.document) })
}

/// The arguments of `is_reflowable`.
#[derive(Debug)]
pub struct IsReflowableParams {
    pub document_id: String,
}

/// Whether the layout of a document adapts to the page size.
#[derive(Debug)]
pub struct IsReflowableResult {
    pub is_reflowable: bool,
}

/// How the outcome of the tool follows from the answer of the engine.
pub open spec fn reflow_outcome(
    answer: Result<bool, MupdfServerError>,
    outcome: Result<IsReflowableResult, MupdfServerError>,
) -> bool {
    match answer {
        Ok(reflowable) => outcome == Ok::<IsReflowableResult, MupdfServerError>(
            IsReflowableResult { is_reflowable: reflowable },
        ),
        Err(e) => outcome == Err::<IsReflowableResult, MupdfServerError>(e),
    }
}

/// Reports whether the layout of a document adapts to the page size, as
/// `ask` says. `ask` is asked only once the session is found.
pub fn is_reflowable<H, E>(
    store: &mut DocumentStore<H>,
    params: IsReflowableParams,
    ask: E,
) -> (outcome: Result<IsReflowableResult, MupdfServerError>)
    where E: FnOnce(&H) -> Result<bool, MupdfServerError>
    requires
        old(store)@.contains_key(params.document_id@) ==> ask.requires(
            (&old(store)@[params.document_id@].document,),
        ),
    ensures
        accessed(old(store)@, final(store)@, params.document_id@),
        if old(store)@.contains_key(params.document_id@) {
            exists|answer: Result<bool, MupdfServerError>| #[trigger]
                ask.ensures((&old(store)@[params.document_id@].document,), answer)
                    && reflow_outcome(answer, outcome)
        } else {
            fails_with(outcome, ErrorView::DocumentNotFound(params.document_id@))
        },
{
    let record = store.access(params.document_id.as_str())?;
    match ask(&record.document) {
        Ok(reflowable) => Ok(IsReflowableResult { is_reflowable: reflowable }),
        Err(e) => Err(e),
    }
}

/// The arguments of `resolve_link`.
#[derive(Debug)]
pub struct ResolveLinkParams {
    pub document_id: String,
    /// The link target to resolve.
    pub uri: String,
}

/// Where a link leads. The engine reports a page and no position on it,
/// so the two coordinates are always absent.
#[derive(Debug)]
pub struct ResolveLinkResult<C> {
    /// The page, counted from zero, for a target inside the document.
    pub page: Option<i32>,
    pub x: Option<C>,
    pub y: Option<C>,
}

/// How the outcome of resolving a link follows from what the engine found.
pub open spec fn resolve_outcome<C>(
    found: Result<Option<u32>, MupdfServerError>,
    outcome: Result<ResolveLinkResult<C>, MupdfServerError>,
) -> bool {
    match found {
        Ok(dest) => outcome == Ok::<ResolveLinkResult<C>, MupdfServerError>(
            ResolveLinkResult { page: page_of(dest), x: None, y: None },
        ),
        Err(e) => outcome == Err::<ResolveLinkResult<C>, MupdfServerError>(e),
    }
}

/// Resolves a link target to a page of the document. `resolve` is asked
/// only once the session is found.
pub fn resolve_link<H, C, E>(
    store: &mut DocumentStore<H>,
    params: ResolveLinkParams,
    resolve: E,
) -> (outcome: Result<ResolveLinkResult<C>, MupdfServerError>)
    where E: FnOnce(&H, &str) -> Result<Option<u32>, MupdfServerError>
    requires
        old(store)@.contains_key(params.document_id@) ==> forall|uri: &str|
            uri@ == params.uri@ ==> #[trigger] resolve.requires(
                (&old(store)@[params.document_id@].document, uri),
            ),
    ensures
        accessed(old(store)@, final(store)@, params.document_id@),
        if old(store)@.contains_key(params.document_id@) {
            exists|uri: &str, found: Result<Option<u32>, MupdfServerError>|
                uri@ == params.uri@ && #[trigger] resolve.ensures(
                    (&old(store)@[params.document_id@].document, uri),
                    found,
                ) && resolve_outcome(found, outcome)
        } else {
            fails_with(outcome, ErrorView::DocumentNotFound(params.document_id@))
        },
{
    let record = store.access(params.document_id.as_str())?;
    match resolve(&record.document, params.uri.as_str()) {
        Ok(dest) => {
            let page = match dest {
                Some(number) => Some(#[verifier::truncate] (number as i32)),
                None => None,
            };
            Ok(ResolveLinkResult { page, x: None, y: None })
        },
        Err(e) => Err(e),
    }
}

} // verus!
