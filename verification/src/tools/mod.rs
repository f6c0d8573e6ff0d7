//! The tools of the server: what each one checks before the content engine
//! is asked, and how it shapes what the engine reports.

pub mod document;
pub mod highlevel;
pub mod page;
pub mod session;
pub mod text;

pub use document::{
    convert_outline, convert_outlines, get_metadata, get_outlines, get_page_count, is_pdf,
    is_reflowable, needs_password, normalize_metadata, resolve_link, GetMetadataParams,
    GetMetadataResult, GetOutlinesParams, GetOutlinesResult, GetPageCountParams,
    GetPageCountResult, IsPdfParams, IsPdfResult, IsReflowableParams, IsReflowableResult,
    NeedsPasswordParams, NeedsPasswordResult, OutlineEntry, ResolveLinkParams, ResolveLinkResult,
};
pub use highlevel::{
    collect_all_bookmarks, collect_bookmarks, oneshot_get_bookmarks, BookmarkEntry,
    OneshotGetBookmarksParams, OneshotGetBookmarksResult,
};
pub use page::{
    access_page, cap_hits, default_scale, finish_render, get_page_bounds, get_page_links,
    render_page, search_page, to_page_link, to_page_links, validate_page_number,
    GetPageBoundsParams, GetPageLinksParams, GetPageLinksResult, PageLink, RenderPageParams,
    RenderPageResult, SearchPageParams, SearchPageResult, MAX_SEARCH_HITS,
};
pub use session::{
    close_document, import_document, list_documents, CloseDocumentParams, CloseDocumentResult,
    DocumentListEntry, DocumentSource, ImportDocumentParams, ImportDocumentResult,
    ListDocumentsParams, ListDocumentsResult,
};
pub use text::{
    default_text_format, get_page_text, get_page_text_blocks, line_text, plain_text,
    to_text_block, to_text_blocks, to_text_line, GetPageTextBlocksParams,
    GetPageTextBlocksResult, GetPageTextParams, GetPageTextResult, TextBlock, TextFormat,
    TextLine,
};
