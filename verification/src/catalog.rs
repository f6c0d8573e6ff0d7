//! The catalog of tools: a closed set of named operations, each with the
//! fields that its arguments hold.

use crate::trusted::str_equal;
use vstd::prelude::*;

verus! {

/// The tools of the server. The catalog is closed: a call names one of
/// these or is refused.
#[derive(Clone, Copy, Debug, PartialEq, Eq, Structural)]
pub enum ToolName {
    ImportDocument,
    CloseDocument,
    ListDocuments,
    GetPageCount,
    GetMetadata,
    GetOutlines,
    GetPageBounds,
    GetPageText,
    SearchPage,
    RenderPage,
    OneshotGetBookmarks,
}

/// The name under which a tool is called.
pub open spec fn tool_name(tool: ToolName) -> Seq<char> {
    match tool {
        ToolName::ImportDocument => "import_document"@,
        ToolName::CloseDocument => "close_document"@,
        ToolName::ListDocuments => "list_documents"@,
        ToolName::GetPageCount => "get_page_count"@,
        ToolName::GetMetadata => "get_metadata"@,
        ToolName::GetOutlines => "get_outlines"@,
        ToolName::GetPageBounds => "get_page_bounds"@,
        ToolName::GetPageText => "get_page_text"@,
        ToolName::SearchPage => "search_page"@,
        ToolName::RenderPage => "render_page"@,
        ToolName::OneshotGetBookmarks => "oneshot_get_bookmarks"@,
    }
}

/// The tool that is called under `name`, if there is one.
pub open spec fn tool_named(name: Seq<char>) -> Option<ToolName> {
    if name == "import_document"@ {
        Some(ToolName::ImportDocument)
    } else if name == "close_document"@ {
        Some(ToolName::CloseDocument)
    } else if name == "list_documents"@ {
        Some(ToolName::ListDocuments)
    } else if name == "get_page_count"@ {
        Some(ToolName::GetPageCount)
    } else if name == "get_metadata"@ {
        Some(ToolName::GetMetadata)
    } else if name == "get_outlines"@ {
        Some(ToolName::GetOutlines)
    } else if name == "get_page_bounds"@ {
        Some(ToolName::GetPageBounds)
    } else if name == "get_page_text"@ {
        Some(ToolName::GetPageText)
    } else if name == "search_page"@ {
        Some(ToolName::SearchPage)
    } else if name == "render_page"@ {
        Some(ToolName::RenderPage)
    } else if name == "oneshot_get_bookmarks"@ {
        Some(ToolName::OneshotGetBookmarks)
    } else {
        None
    }
}

/// Whether a tool works on a session of the store. The other tools open
/// their document themselves and keep no session.
pub open spec fn stateful(tool: ToolName) -> bool {
    tool != ToolName::OneshotGetBookmarks
}

impl ToolName {
    /// The name under which the tool is called.
    pub fn name(self) -> (name: &'static str)
        ensures
            name@ == tool_name(self),
    {
        match self {
            ToolName::ImportDocument => "import_document",
            ToolName::CloseDocument => "close_document",
            ToolName::ListDocuments => "list_documents",
            ToolName::GetPageCount => "get_page_count",
            ToolName::GetMetadata => "get_metadata",
            ToolName::GetOutlines => "get_outlines",
            ToolName::GetPageBounds => "get_page_bounds",
            ToolName::GetPageText => "get_page_text",
            ToolName::SearchPage => "search_page",
            ToolName::RenderPage => "render_page",
            ToolName::OneshotGetBookmarks => "oneshot_get_bookmarks",
        }
    }

    /// The tool that is called under `name`.
    pub fn from_name(name: &str) -> (tool: Option<ToolName>)
        ensures
            tool == tool_named(name@),
    {
        if str_equal(name, "import_document") {
            Some(ToolName::ImportDocument)
        } else if str_equal(name, "close_document") {
            Some(ToolName::CloseDocument)
        } else if str_equal(name, "list_documents") {
            Some(ToolName::ListDocuments)
        } else if str_equal(name, "get_page_count") {
            Some(ToolName::GetPageCount)
        } else if str_equal(name, "get_metadata") {
            Some(ToolName::GetMetadata)
        } else if str_equal(name, "get_outlines") {
            Some(ToolName::GetOutlines)
        } else if str_equal(name, "get_page_bounds") {
            Some(ToolName::GetPageBounds)
        } else if str_equal(name, "get_page_text") {
            Some(ToolName::GetPageText)
        } else if str_equal(name, "search_page") {
            Some(ToolName::SearchPage)
        } else if str_equal(name, "render_page") {
            Some(ToolName::RenderPage)
        } else if str_equal(name, "oneshot_get_bookmarks") {
            Some(ToolName::OneshotGetBookmarks)
        } else {
            None
        }
    }

    /// Whether the tool works on a session of the store.
    pub fn is_stateful(self) -> (yes: bool)
        ensures
            yes == stateful(self),
    {
        match self {
            ToolName::OneshotGetBookmarks => false,
            _ => true,
        }
    }
}

/// Every tool is called under a name of its own: looking up the name of
/// a tool finds that tool.
pub proof fn lemma_tool_names_resolve(tool: ToolName)
    ensures
        tool_named(tool_name(tool)) == Some(tool),
{
    reveal_strlit("import_document");
    reveal_strlit("close_document");
    reveal_strlit("list_documents");
    reveal_strlit("get_page_count");
    reveal_strlit("get_metadata");
    reveal_strlit("get_outlines");
    reveal_strlit("get_page_bounds");
    reveal_strlit("get_page_text");
    reveal_strlit("search_page");
    reveal_strlit("render_page");
    reveal_strlit("oneshot_get_bookmarks");
    assert("import_document"@.len() == 15 && "get_page_bounds"@.len() == 15);
    assert("close_document"@.len() == 14 && "list_documents"@.len() == 14);
    assert("get_page_count"@.len() == 14 && "get_page_text"@.len() == 13);
    assert("get_metadata"@.len() == 12 && "get_outlines"@.len() == 12);
    assert("search_page"@.len() == 11 && "render_page"@.len() == 11);
    assert("oneshot_get_bookmarks"@.len() == 21);
    let name = tool_name(tool);
    match tool {
        ToolName::ListDocuments => {
            assert(name[0] != "close_document"@[0]);
        },
        ToolName::GetPageCount => {
            assert(name[0] != "close_document"@[0]);
            assert(name[0] != "list_documents"@[0]);
        },
        ToolName::GetOutlines => {
            assert(name[4] != "get_metadata"@[4]);
        },
        ToolName::GetPageBounds => {
            assert(name[0] != "import_document"@[0]);
        },
        ToolName::RenderPage => {
            assert(name[0] != "search_page"@[0]);
        },
        _ => {},
    }
}

/// What a tool is for, as it is told to the caller.
pub open spec fn tool_description(tool: ToolName) -> Seq<char> {
    match tool {
        ToolName::ImportDocument => "[STATEFUL] Import a document to the server. Returns a document_id for subsequent operations. Use this when you need multiple operations on the same document. Remember to call close_document when done."@,
        ToolName::CloseDocument => "[STATEFUL] Close a document and free its memory. Always call this after you're done with a document imported via import_document."@,
        ToolName::ListDocuments => "[STATEFUL] List all open documents with their IDs and page counts."@,
        ToolName::GetPageCount => "[STATEFUL] Get the total number of pages. Requires document_id from import_document."@,
        ToolName::GetMetadata => "[STATEFUL] Get document metadata (title, author, subject, keywords, etc.). Requires document_id from import_document."@,
        ToolName::GetOutlines => "[STATEFUL] Get document outlines (table of contents/bookmarks) with page numbers. Requires document_id from import_document."@,
        ToolName::GetPageBounds => "[STATEFUL] Get the dimensions (width, height) of a page. Requires document_id from import_document."@,
        ToolName::GetPageText => "[STATEFUL] Extract text from a page in various formats (plain, html, json, xml). Requires document_id from import_document."@,
        ToolName::SearchPage => "[STATEFUL] Search for text on a page. Returns coordinates of all matches. Requires document_id from import_document."@,
        ToolName::RenderPage => "[STATEFUL] Render a page to an image (PNG). Returns base64-encoded data. Requires document_id from import_document."@,
        ToolName::OneshotGetBookmarks => "[ONESHOT] Extract all bookmarks with their target page numbers. No document_id needed - pass file path or base64 directly. Use this for a single operation; use STATEFUL API if you need multiple operations on the same document."@,
    }
}

impl ToolName {
    /// What the tool is for, as it is told to the caller.
    pub fn description(self) -> (text: &'static str)
        ensures
            text@ == tool_description(self),
    {
        match self {
            ToolName::ImportDocument => "[STATEFUL] Import a document to the server. Returns a document_id for subsequent operations. Use this when you need multiple operations on the same document. Remember to call close_document when done.",
            ToolName::CloseDocument => "[STATEFUL] Close a document and free its memory. Always call this after you're done with a document imported via import_document.",
            ToolName::ListDocuments => "[STATEFUL] List all open documents with their IDs and page counts.",
            ToolName::GetPageCount => "[STATEFUL] Get the total number of pages. Requires document_id from import_document.",
            ToolName::GetMetadata => "[STATEFUL] Get document metadata (title, author, subject, keywords, etc.). Requires document_id from import_document.",
            ToolName::GetOutlines => "[STATEFUL] Get document outlines (table of contents/bookmarks) with page numbers. Requires document_id from import_document.",
            ToolName::GetPageBounds => "[STATEFUL] Get the dimensions (width, height) of a page. Requires document_id from import_document.",
            ToolName::GetPageText => "[STATEFUL] Extract text from a page in various formats (plain, html, json, xml). Requires document_id from import_document.",
            ToolName::SearchPage => "[STATEFUL] Search for text on a page. Returns coordinates of all matches. Requires document_id from import_document.",
            ToolName::RenderPage => "[STATEFUL] Render a page to an image (PNG). Returns base64-encoded data. Requires document_id from import_document.",
            ToolName::OneshotGetBookmarks => "[ONESHOT] Extract all bookmarks with their target page numbers. No document_id needed - pass file path or base64 directly. Use this for a single operation; use STATEFUL API if you need multiple operations on the same document.",
        }
    }
}

/// The tools of the catalog, in the order in which they are listed.
pub open spec fn all_tools() -> Seq<ToolName> {
    seq![
        ToolName::ImportDocument,
        ToolName::CloseDocument,
        ToolName::ListDocuments,
        ToolName::GetPageCount,
        ToolName::GetMetadata,
        ToolName::GetOutlines,
        ToolName::GetPageBounds,
        ToolName::GetPageText,
        ToolName::SearchPage,
        ToolName::RenderPage,
        ToolName::OneshotGetBookmarks,
    ]
}

/// The tools of the catalog, in the order in which they are listed.
pub fn catalog() -> (tools: Vec<ToolName>)
    ensures
        tools@ == all_tools(),
{
    let mut tools: Vec<ToolName> = Vec::new();
    tools.push(ToolName::ImportDocument);
    tools.push(ToolName::CloseDocument);
    tools.push(ToolName::ListDocuments);
    tools.push(ToolName::GetPageCount);
    tools.push(ToolName::GetMetadata);
    tools.push(ToolName::GetOutlines);
    tools.push(ToolName::GetPageBounds);
    tools.push(ToolName::GetPageText);
    tools.push(ToolName::SearchPage);
    tools.push(ToolName::RenderPage);
    tools.push(ToolName::OneshotGetBookmarks);
    assert(tools@ =~= all_tools());
    tools
}

/// Every tool is in the catalog.
pub proof fn lemma_catalog_is_complete(tool: ToolName)
    ensures
        all_tools().contains(tool),
{
    let k: int = match tool {
        ToolName::ImportDocument => 0,
        ToolName::CloseDocument => 1,
        ToolName::ListDocuments => 2,
        ToolName::GetPageCount => 3,
        ToolName::GetMetadata => 4,
        ToolName::GetOutlines => 5,
        ToolName::GetPageBounds => 6,
        ToolName::GetPageText => 7,
        ToolName::SearchPage => 8,
        ToolName::RenderPage => 9,
        ToolName::OneshotGetBookmarks => 10,
    };
    assert(all_tools()[k] == tool);
}

/// The fields that the arguments of a tool can hold, in the order in
/// which its schema declares them.
pub open spec fn field_names(tool: ToolName) -> Seq<Seq<char>> {
    match tool {
        ToolName::ImportDocument | ToolName::OneshotGetBookmarks => seq!["source"@, "password"@],
        ToolName::ListDocuments => Seq::empty(),
        ToolName::CloseDocument | ToolName::GetPageCount | ToolName::GetMetadata
        | ToolName::GetOutlines => seq!["document_id"@],
        ToolName::GetPageBounds => seq!["document_id"@, "page"@],
        ToolName::GetPageText => seq!["document_id"@, "page"@, "format"@],
        ToolName::SearchPage => seq!["document_id"@, "page"@, "query"@],
        ToolName::RenderPage => seq!["document_id"@, "page"@, "scale"@],
    }
}

/// The fields that the arguments of a tool must hold.
pub open spec fn required_fields(tool: ToolName) -> Seq<Seq<char>> {
    match tool {
        ToolName::ImportDocument | ToolName::OneshotGetBookmarks => seq!["source"@],
        ToolName::ListDocuments => Seq::empty(),
        ToolName::CloseDocument | ToolName::GetPageCount | ToolName::GetMetadata
        | ToolName::GetOutlines => seq!["document_id"@],
        ToolName::GetPageBounds | ToolName::GetPageText | ToolName::RenderPage => seq![
            "document_id"@,
            "page"@,
        ],
        ToolName::SearchPage => seq!["document_id"@, "page"@, "query"@],
    }
}

/// What is known of the names of the members of a schema and of the
/// fields of the tools: enough to tell any two of them apart.
pub proof fn lemma_names()
    ensures
        "type"@.len() == 4 && "type"@[0] == 't',
        "enum"@.len() == 4 && "enum"@[0] == 'e',
        "oneOf"@.len() == 5,
        "default"@.len() == 7,
        "description"@.len() == 11 && "description"@[1] == 'e',
        "source"@.len() == 6 && "source"@[0] == 's',
        "format"@.len() == 6 && "format"@[0] == 'f',
        "base64"@.len() == 6 && "base64"@[0] == 'b',
        "password"@.len() == 8 && "password"@[0] == 'p',
        "filename"@.len() == 8 && "filename"@[0] == 'f',
        "page"@.len() == 4 && "page"@[2] == 'g',
        "path"@.len() == 4 && "path"@[2] == 't',
        "query"@.len() == 5 && "query"@[0] == 'q',
        "scale"@.len() == 5 && "scale"@[0] == 's',
        "document_id"@.len() == 11 && "document_id"@[1] == 'o',
{
    reveal_strlit("type");
    reveal_strlit("enum");
    reveal_strlit("oneOf");
    reveal_strlit("default");
    reveal_strlit("description");
    reveal_strlit("source");
    reveal_strlit("format");
    reveal_strlit("base64");
    reveal_strlit("password");
    reveal_strlit("filename");
    reveal_strlit("page");
    reveal_strlit("path");
    reveal_strlit("query");
    reveal_strlit("scale");
    reveal_strlit("document_id");
}

} // verus!
