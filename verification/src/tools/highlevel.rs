//! Tools that open a document, answer one question about it and let it go
//! again. They keep no session and never see the store.

use crate::engine::{
    lemma_outline_views, outline_views, OpenRequest, OpenRequestView, Outline, OutlineView,
};
use crate::error::{ErrorView, MupdfServerError};
use crate::tools::document::page_of;
use crate::tools::session::{open_outcome, password_of, request_for, DocumentSource};
use vstd::prelude::*;

verus! {

/// The arguments of `oneshot_get_bookmarks`.
#[derive(Debug)]
pub struct OneshotGetBookmarksParams {
    /// Where the document comes from.
    pub source: DocumentSource,
    /// The password of a protected document.
    pub password: Option<String>,
}

/// An entry of the outline with its depth.
#[derive(Debug)]
pub struct BookmarkEntry {
    /// The title of the entry.
    pub title: String,
    /// The page that the entry leads to, counted from zero.
    pub page: Option<i32>,
    /// The depth of the entry; the top level is 0.
    pub level: i32,
}

/// The mathematical content of a [`BookmarkEntry`].
pub struct BookmarkView {
    pub title: Seq<char>,
    pub page: Option<i32>,
    pub level: i32,
}

impl View for BookmarkEntry {
    type V = BookmarkView;

    open spec fn view(&self) -> BookmarkView {
        BookmarkView { title: self.title@, page: self.page, level: self.level }
    }
}

/// The contents of a sequence of bookmarks, in order.
pub open spec fn bookmark_views(entries: Seq<BookmarkEntry>) -> Seq<BookmarkView> {
    entries.map_values(|entry: BookmarkEntry| entry@)
}

/// The bookmarks of a document and its page count.
#[derive(Debug)]
pub struct OneshotGetBookmarksResult {
    /// Every entry of the outline, each before the entries below it.
    pub bookmarks: Vec<BookmarkEntry>,
    /// The number of pages of the document.
    pub page_count: i32,
}

/// The depth below `level`: one more, and no more than the greatest
/// number that a level can hold.
pub open spec fn below(level: i32) -> i32 {
    if level < i32::MAX {
        (level + 1) as i32
    } else {
        level
    }
}

/// The bookmarks of an outline node at depth `level`: the node itself,
/// then the bookmarks of the nodes below it, one level deeper.
pub open spec fn bookmarks_of(outline: OutlineView, level: i32) -> Seq<BookmarkView>
    decreases outline, 1nat,
{
    seq![BookmarkView { title: outline.title, page: page_of(outline.dest), level }]
        + bookmarks_of_all(outline.down, below(level))
}

/// The bookmarks of a sequence of outline nodes at depth `level`, node
/// after node.
pub open spec fn bookmarks_of_all(outlines: Seq<OutlineView>, level: i32) -> Seq<BookmarkView>
    decreases outlines, 0nat,
{
    if outlines.len() == 0 {
        Seq::empty()
    } else {
        bookmarks_of_all(outlines.drop_last(), level) + bookmarks_of(outlines.last(), level)
    }
}

/// Appends the bookmarks of an outline node at depth `level` to `result`.
pub fn collect_bookmarks(outline: &Outline, level: i32, result: &mut Vec<BookmarkEntry>)
    ensures
        bookmark_views(final(result)@) == bookmark_views(old(result)@) + bookmarks_of(
            outline@,
            level,
        ),
    decreases outline, 1nat,
{
    let page = match outline.dest {
        Some(number) => Some(#[verifier::truncate] (number as i32)),
        None => None,
    };
    result.push(BookmarkEntry { title: outline.title.clone(), page, level });
    assert(bookmark_views(result@) =~= bookmark_views(old(result)@) + seq![
        BookmarkView { title: outline@.title, page: page_of(outline@.dest), level },
    ]);
    let deeper = if level < i32::MAX {
        level + 1
    } else {
        level
    };
    collect_all_bookmarks(&outline.down, deeper, result);
    assert(bookmark_views(result@) =~= bookmark_views(old(result)@) + bookmarks_of(
        outline@,
        level,
    ));
}

/// Appends the bookmarks of a sequence of outline nodes at depth `level`
/// to `result`.
pub fn collect_all_bookmarks(outlines: &Vec<Outline>, level: i32, result: &mut Vec<BookmarkEntry>)
    ensures
        bookmark_views(final(result)@) == bookmark_views(old(result)@) + bookmarks_of_all(
            outline_views(outlines@),
            level,
        ),
    decreases outlines, 0nat,
{
    let mut i: usize = 0;
    proof {
        lemma_outline_views(outlines@);
        assert(outline_views(outlines@).subrange(0, 0) =~= Seq::<OutlineView>::empty());
        assert(bookmark_views(result@) =~= bookmark_views(old(result)@) + bookmarks_of_all(
            outline_views(outlines@).subrange(0, 0),
            level,
        ));
    }
    while i < outlines.len()
        invariant
            i <= outlines@.len(),
            outline_views(outlines@).len() == outlines@.len(),
            forall|k: int|
                0 <= k < outlines@.len() ==> #[trigger] outline_views(outlines@)[k]
                    == outlines@[k]@,
            bookmark_views(result@) == bookmark_views(old(result)@) + bookmarks_of_all(
                outline_views(outlines@).subrange(0, i as int),
                level,
            ),
        decreases outlines@.len() - i,
    {
        let ghost upto = outline_views(outlines@).subrange(0, i as int + 1);
        let ghost before = bookmark_views(result@);
        assert(upto.drop_last() =~= outline_views(outlines@).subrange(0, i as int));
        assert(upto.last() == outlines@[i as int]@);
        collect_bookmarks(&outlines[i], level, result);
        assert(bookmark_views(result@) =~= bookmark_views(old(result)@) + bookmarks_of_all(
            upto,
            level,
        ));
        i += 1;
    }
    assert(outline_views(outlines@).subrange(0, i as int) =~= outline_views(outlines@));
}

/// How the outcome of the tool follows from the outline that the engine
/// read, once the page count is known.
pub open spec fn outline_outcome(
    page_count: i32,
    read: Result<Vec<Outline>, MupdfServerError>,
    outcome: Result<OneshotGetBookmarksResult, MupdfServerError>,
) -> bool {
    match read {
        Ok(outlines) => outcome matches Ok(sent) && sent.page_count == page_count
            && bookmark_views(sent.bookmarks@) == bookmarks_of_all(outline_views(outlines@), 0),
        Err(e) => outcome == Err::<OneshotGetBookmarksResult, MupdfServerError>(e),
    }
}

/// How the outcome of the tool follows from the page count that the
/// engine reports for the opened document.
pub open spec fn count_outcome<H, R: FnOnce(&H) -> Result<Vec<Outline>, MupdfServerError>>(
    read_outlines: R,
    opened: H,
    counted: Result<i32, MupdfServerError>,
    outcome: Result<OneshotGetBookmarksResult, MupdfServerError>,
) -> bool {
    match counted {
        Ok(page_count) => exists|read: Result<Vec<Outline>, MupdfServerError>| #[trigger]
            read_outlines.ensures((&opened,), read) && outline_outcome(page_count, read, outcome),
        Err(e) => outcome == Err::<OneshotGetBookmarksResult, MupdfServerError>(e),
    }
}

/// How the outcome of the tool follows from the outcome of opening the
/// source.
pub open spec fn bookmarks_outcome<
    H,
    C: FnOnce(&H) -> Result<i32, MupdfServerError>,
    R: FnOnce(&H) -> Result<Vec<Outline>, MupdfServerError>,
>(
    count_pages: C,
    read_outlines: R,
    unlocked: Result<H, MupdfServerError>,
    outcome: Result<OneshotGetBookmarksResult, MupdfServerError>,
) -> bool {
    match unlocked {
        Ok(opened) => exists|counted: Result<i32, MupdfServerError>| #[trigger]
            count_pages.ensures((&opened,), counted) && count_outcome(
                read_outlines,
                opened,
                counted,
                outcome,
            ),
        Err(e) => outcome == Err::<OneshotGetBookmarksResult, MupdfServerError>(e),
    }
}

/// Opens a document, lists every entry of its outline with its depth and
/// target page, and lets the document go. The source is resolved and the
/// document unlocked as [`DocumentSource::open`] says; then `count_pages`
/// and `read_outlines` are asked, in this order.
pub fn oneshot_get_bookmarks<H, O, N, A, C, R>(
    params: OneshotGetBookmarksParams,
    open_engine: O,
    needs_password: N,
    authenticate: A,
    count_pages: C,
    read_outlines: R,
) -> (outcome: Result<OneshotGetBookmarksResult, MupdfServerError>)
    where
        O: FnOnce(OpenRequest) -> Result<H, MupdfServerError>,
        N: FnOnce(&H) -> Result<bool, MupdfServerError>,
        A: FnOnce(H, &str) -> Result<(H, bool), MupdfServerError>,
        C: FnOnce(&H) -> Result<i32, MupdfServerError>,
        R: FnOnce(&H) -> Result<Vec<Outline>, MupdfServerError>,
    requires
        forall|request: OpenRequest|
            request_for(params.source) == Ok::<OpenRequestView, ErrorView>(
                request@,
            ) ==> #[trigger] open_engine.requires(
                (request,),
            ),
        forall|opened: &H| #[trigger] needs_password.requires((opened,)),
        forall|handle: H, given: &str|
            password_of(params.password, Some(given)) ==> #[trigger] authenticate.requires(
                (handle, given),
            ),
        forall|opened: &H| #[trigger] count_pages.requires((opened,)),
        forall|opened: &H| #[trigger] read_outlines.requires((opened,)),
    ensures
        exists|given: Option<&str>, unlocked: Result<H, MupdfServerError>|
            password_of(params.password, given) && #[trigger] open_outcome(
                params.source,
                given,
                open_engine,
                needs_password,
                authenticate,
                unlocked,
            ) && bookmarks_outcome(count_pages, read_outlines, unlocked, outcome),
{
    let given: Option<&str> = match &params.password {
        Some(text) => Some(text.as_str()),
        None => None,
    };
    let unlocked = params.source.open(given, open_engine, needs_password, authenticate);
    let document = match unlocked {
        Ok(document) => document,
        Err(e) => {
            return Err(e);
        },
    };
    let page_count = match count_pages(&document) {
        Ok(page_count) => page_count,
        Err(e) => {
            return Err(e);
        },
    };
    let outlines = match read_outlines(&document) {
        Ok(outlines) => outlines,
        Err(e) => {
            return Err(e);
        },
    };
    let mut bookmarks: Vec<BookmarkEntry> = Vec::new();
    collect_all_bookmarks(&outlines, 0, &mut bookmarks);
    assert(bookmark_views(bookmarks@) =~= bookmarks_of_all(outline_views(outlines@), 0));
    Ok(OneshotGetBookmarksResult { bookmarks, page_count })
}

} // verus!
