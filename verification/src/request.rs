//! The reading of a call: the tool by its name, and the arguments into
//! the typed parameters of the tool.

use crate::arguments::{
    as_i32, faults_with, i32_field, number_field_or, optional_text_field, read_i32,
    read_number_or, read_optional_text, read_source, read_text, read_text_or, source_field,
    source_in, text_field, text_field_or, FaultView, ProtocolFault, SourceView,
};
use crate::catalog::{field_names, lemma_names, required_fields, tool_named, ToolName};
use crate::json::{lookup, Member, Number, Value};
use crate::tools::document::{
    text_of, GetMetadataParams, GetOutlinesParams, GetPageCountParams,
};
use crate::tools::highlevel::OneshotGetBookmarksParams;
use crate::tools::page::{default_scale, GetPageBoundsParams, RenderPageParams, SearchPageParams};
use crate::tools::session::{CloseDocumentParams, ImportDocumentParams, ListDocumentsParams};
use crate::tools::text::{default_text_format, GetPageTextParams};
use vstd::prelude::*;
use vstd::string::StringExecFns;

verus! {

/// A call that was read: the tool and its typed parameters.
#[derive(Debug)]
pub enum ToolRequest {
    ImportDocument(ImportDocumentParams),
    CloseDocument(CloseDocumentParams),
    ListDocuments(ListDocumentsParams),
    GetPageCount(GetPageCountParams),
    GetMetadata(GetMetadataParams),
    GetOutlines(GetOutlinesParams),
    GetPageBounds(GetPageBoundsParams),
    GetPageText(GetPageTextParams),
    SearchPage(SearchPageParams),
    RenderPage(RenderPageParams),
    OneshotGetBookmarks(OneshotGetBookmarksParams),
}

/// The parameters of a call, whatever the tool: the fields that the tool
/// does not have are `None`.
pub struct RequestView {
    pub tool: ToolName,
    pub document_id: Option<Seq<char>>,
    pub page: Option<i32>,
    pub format: Option<Seq<char>>,
    pub query: Option<Seq<char>>,
    pub scale: Option<Number>,
    pub source: Option<SourceView>,
    pub password: Option<Option<Seq<char>>>,
}

/// The parameters of a call to `tool` with no field set.
pub open spec fn bare(tool: ToolName) -> RequestView {
    RequestView {
        tool,
        document_id: None,
        page: None,
        format: None,
        query: None,
        scale: None,
        source: None,
        password: None,
    }
}

impl View for ToolRequest {
    type V = RequestView;

    open spec fn view(&self) -> RequestView {
        match *self {
            ToolRequest::ImportDocument(p) => RequestView {
                source: Some(p.source@),
                password: Some(text_of(p.password)),
                ..bare(ToolName::ImportDocument)
            },
            ToolRequest::CloseDocument(p) => RequestView {
                document_id: Some(p.document_id@),
                ..bare(ToolName::CloseDocument)
            },
            ToolRequest::ListDocuments(_) => bare(ToolName::ListDocuments),
            ToolRequest::GetPageCount(p) => RequestView {
                document_id: Some(p.document_id@),
                ..bare(ToolName::GetPageCount)
            },
            ToolRequest::GetMetadata(p) => RequestView {
                document_id: Some(p.document_id@),
                ..bare(ToolName::GetMetadata)
            },
            ToolRequest::GetOutlines(p) => RequestView {
                document_id: Some(p.document_id@),
                ..bare(ToolName::GetOutlines)
            },
            ToolRequest::GetPageBounds(p) => RequestView {
                document_id: Some(p.document_id@),
                page: Some(p.page),
                ..bare(ToolName::GetPageBounds)
            },
            ToolRequest::GetPageText(p) => RequestView {
                document_id: Some(p.document_id@),
                page: Some(p.page),
                format: Some(p.format@),
                ..bare(ToolName::GetPageText)
            },
            ToolRequest::SearchPage(p) => RequestView {
                document_id: Some(p.document_id@),
                page: Some(p.page),
                query: Some(p.query@),
                ..bare(ToolName::SearchPage)
            },
            ToolRequest::RenderPage(p) => RequestView {
                document_id: Some(p.document_id@),
                page: Some(p.page),
                scale: Some(p.scale),
                ..bare(ToolName::RenderPage)
            },
            ToolRequest::OneshotGetBookmarks(p) => RequestView {
                source: Some(p.source@),
                password: Some(text_of(p.password)),
                ..bare(ToolName::OneshotGetBookmarks)
            },
        }
    }
}

/// Whether a tool takes the field `document_id`.
pub open spec fn takes_document_id(tool: ToolName) -> bool {
    tool != ToolName::ImportDocument && tool != ToolName::ListDocuments && tool
        != ToolName::OneshotGetBookmarks
}

/// Whether a tool takes the field `page`.
pub open spec fn takes_page(tool: ToolName) -> bool {
    tool == ToolName::GetPageBounds || tool == ToolName::GetPageText || tool
        == ToolName::SearchPage || tool == ToolName::RenderPage
}

/// Whether a tool takes the fields `source` and `password`.
pub open spec fn takes_source(tool: ToolName) -> bool {
    tool == ToolName::ImportDocument || tool == ToolName::OneshotGetBookmarks
}

/// The fault in the arguments of a call to `tool`, if there is one. The
/// fields are read in the order `source`, `password`, `document_id`,
/// `page`, and then the field that only this tool has; the first field
/// that cannot be read decides.
pub open spec fn fault_in(tool: ToolName, members: Seq<Member>) -> Option<FaultView> {
    if takes_source(tool) && source_field(members, "source"@) is Err {
        Some(source_field(members, "source"@)->Err_0)
    } else if takes_source(tool) && optional_text_field(members, "password"@) is Err {
        Some(optional_text_field(members, "password"@)->Err_0)
    } else if takes_document_id(tool) && text_field(members, "document_id"@) is Err {
        Some(text_field(members, "document_id"@)->Err_0)
    } else if takes_page(tool) && i32_field(members, "page"@) is Err {
        Some(i32_field(members, "page"@)->Err_0)
    } else if tool == ToolName::GetPageText && text_field_or(members, "format"@, "plain"@)
        is Err {
        Some(text_field_or(members, "format"@, "plain"@)->Err_0)
    } else if tool == ToolName::SearchPage && text_field(members, "query"@) is Err {
        Some(text_field(members, "query"@)->Err_0)
    } else if tool == ToolName::RenderPage && number_field_or(
        members,
        "scale"@,
        Number::Unsigned(1),
    ) is Err {
        Some(number_field_or(members, "scale"@, Number::Unsigned(1))->Err_0)
    } else {
        None
    }
}

/// The parameters that the arguments of a call to `tool` stand for, where
/// they hold no fault: each field of the tool as it is given, and its
/// default where it has one and is left out.
pub open spec fn request_in(tool: ToolName, members: Seq<Member>) -> RequestView {
    RequestView {
        tool,
        document_id: if takes_document_id(tool) {
            Some(text_field(members, "document_id"@)->Ok_0)
        } else {
            None
        },
        page: if takes_page(tool) {
            Some(i32_field(members, "page"@)->Ok_0)
        } else {
            None
        },
        format: if tool == ToolName::GetPageText {
            Some(text_field_or(members, "format"@, "plain"@)->Ok_0)
        } else {
            None
        },
        query: if tool == ToolName::SearchPage {
            Some(text_field(members, "query"@)->Ok_0)
        } else {
            None
        },
        scale: if tool == ToolName::RenderPage {
            Some(number_field_or(members, "scale"@, Number::Unsigned(1))->Ok_0)
        } else {
            None
        },
        source: if takes_source(tool) {
            Some(source_field(members, "source"@)->Ok_0)
        } else {
            None
        },
        password: if takes_source(tool) {
            Some(optional_text_field(members, "password"@)->Ok_0)
        } else {
            None
        },
    }
}

/// Reads the arguments of a call to `tool`.
pub fn read_arguments(tool: ToolName, members: &Vec<Member>) -> (read: Result<
    ToolRequest,
    ProtocolFault,
>)
    ensures
        match read {
            Ok(request) => fault_in(tool, members@) is None && request@ == request_in(
                tool,
                members@,
            ),
            Err(fault) => fault_in(tool, members@) == Some(fault@),
        },
{
    match tool {
        ToolName::ImportDocument => {
            let source = read_source(members, "source")?;
            let password = read_optional_text(members, "password")?;
            Ok(ToolRequest::ImportDocument(ImportDocumentParams { source, password }))
        },
        ToolName::CloseDocument => {
            let document_id = read_text(members, "document_id")?;
            Ok(ToolRequest::CloseDocument(CloseDocumentParams { document_id }))
        },
        ToolName::ListDocuments => Ok(ToolRequest::ListDocuments(ListDocumentsParams {  })),
        ToolName::GetPageCount => {
            let document_id = read_text(members, "document_id")?;
            Ok(ToolRequest::GetPageCount(GetPageCountParams { document_id }))
        },
        ToolName::GetMetadata => {
            let document_id = read_text(members, "document_id")?;
            Ok(ToolRequest::GetMetadata(GetMetadataParams { document_id }))
        },
        ToolName::GetOutlines => {
            let document_id = read_text(members, "document_id")?;
            Ok(ToolRequest::GetOutlines(GetOutlinesParams { document_id }))
        },
        ToolName::GetPageBounds => {
            let document_id = read_text(members, "document_id")?;
            let page = read_i32(members, "page")?;
            Ok(ToolRequest::GetPageBounds(GetPageBoundsParams { document_id, page }))
        },
        ToolName::GetPageText => {
            let document_id = read_text(members, "document_id")?;
            let page = read_i32(members, "page")?;
            let format = read_text_or(members, "format", default_text_format())?;
            Ok(ToolRequest::GetPageText(GetPageTextParams { document_id, page, format }))
        },
        ToolName::SearchPage => {
            let document_id = read_text(members, "document_id")?;
            let page = read_i32(members, "page")?;
            let query = read_text(members, "query")?;
            Ok(ToolRequest::SearchPage(SearchPageParams { document_id, page, query }))
        },
        ToolName::RenderPage => {
            let document_id = read_text(members, "document_id")?;
            let page = read_i32(members, "page")?;
            let scale = read_number_or(members, "scale", default_scale())?;
            Ok(ToolRequest::RenderPage(RenderPageParams { document_id, page, scale }))
        },
        ToolName::OneshotGetBookmarks => {
            let source = read_source(members, "source")?;
            let password = read_optional_text(members, "password")?;
            Ok(ToolRequest::OneshotGetBookmarks(OneshotGetBookmarksParams { source, password }))
        },
    }
}

/// Reads a call: the tool by its name, then its arguments. A name that
/// is not in the catalog and arguments that do not fit the tool are
/// faults of the request; no tool runs.
pub fn read_call(name: &str, members: &Vec<Member>) -> (read: Result<ToolRequest, ProtocolFault>)
    ensures
        match tool_named(name@) {
            None => faults_with(read, FaultView::UnknownTool(name@)),
            Some(tool) => match read {
                Ok(request) => fault_in(tool, members@) is None && request@ == request_in(
                    tool,
                    members@,
                ),
                Err(fault) => fault_in(tool, members@) == Some(fault@),
            },
        },
{
    match ToolName::from_name(name) {
        Some(tool) => read_arguments(tool, members),
        None => Err(ProtocolFault::UnknownTool(String::from_str(name))),
    }
}

/// A call is refused for a missing field only if the field is one that
/// the tool requires and the arguments do not hold it.
pub proof fn lemma_missing_field_is_required(tool: ToolName, members: Seq<Member>, field: Seq<char>)
    requires
        fault_in(tool, members) == Some(FaultView::MissingField(field)),
    ensures
        required_fields(tool).contains(field),
        lookup(members, field) is None,
{
    let required = required_fields(tool);
    if takes_source(tool) && source_field(members, "source"@) is Err {
        assert(required[0] == "source"@);
    } else if takes_source(tool) && optional_text_field(members, "password"@) is Err {
    } else if takes_document_id(tool) && text_field(members, "document_id"@) is Err {
        assert(required[0] == "document_id"@);
    } else if takes_page(tool) && i32_field(members, "page"@) is Err {
        assert(required[1] == "page"@);
    } else if tool == ToolName::GetPageText && text_field_or(members, "format"@, "plain"@)
        is Err {
    } else if tool == ToolName::SearchPage && text_field(members, "query"@) is Err {
        assert(required[2] == "query"@);
    } else {
    }
}

/// Arguments that are read without fault hold every field that the tool
/// requires.
pub proof fn lemma_accepted_arguments_are_complete(
    tool: ToolName,
    members: Seq<Member>,
    field: Seq<char>,
)
    requires
        fault_in(tool, members) is None,
        required_fields(tool).contains(field),
    ensures
        lookup(members, field) is Some,
{
    let required = required_fields(tool);
    let k = choose|k: int| 0 <= k < required.len() && required[k] == field;
    assert(0 <= k < required.len() && required[k] == field);
}

/// Whether `value` is of the kind that the field `field` takes: a source
/// for `source`, a whole number in range for `page`, a number for `scale`,
/// a text or null for `password`, and a text for any other field.
pub open spec fn fits_kind(field: Seq<char>, value: Value) -> bool {
    if field == "source"@ {
        source_in(value) is Some
    } else if field == "page"@ {
        match value {
            Value::Number(number) => as_i32(number) is Some,
            _ => false,
        }
    } else if field == "scale"@ {
        value is Number
    } else if field == "password"@ {
        value is Text || value is Null
    } else {
        value is Text
    }
}

/// Whether the arguments `members` give the field `field` as `tool` takes
/// it: with a value of its kind, or not at all where the tool does not
/// require it.
pub open spec fn gives(tool: ToolName, members: Seq<Member>, field: Seq<char>) -> bool {
    match lookup(members, field) {
        Some(value) => fits_kind(field, value),
        None => !required_fields(tool).contains(field),
    }
}

/// The arguments of a call are read without fault exactly if they give
/// every field of the tool as the tool takes it.
pub proof fn lemma_arguments_are_read_iff_they_fit(tool: ToolName, members: Seq<Member>)
    ensures
        fault_in(tool, members) is None <==> forall|k: int|
            0 <= k < field_names(tool).len() ==> gives(
                tool,
                members,
                #[trigger] field_names(tool)[k],
            ),
{
    lemma_names();
    let fields = field_names(tool);
    let required = required_fields(tool);
    if fault_in(tool, members) is None {
        assert forall|k: int| 0 <= k < fields.len() implies gives(
            tool,
            members,
            #[trigger] fields[k],
        ) by {
            if lookup(members, fields[k]) is None {
                assert forall|j: int| 0 <= j < required.len() implies required[j] != fields[k] by {}
            }
        }
    }
    if forall|k: int| 0 <= k < fields.len() ==> gives(tool, members, #[trigger] fields[k]) {
        if takes_source(tool) {
            assert(gives(tool, members, fields[0]));
            assert(gives(tool, members, fields[1]));
            assert(required[0] == "source"@);
        }
        if takes_document_id(tool) {
            assert(gives(tool, members, fields[0]));
            assert(required[0] == "document_id"@);
        }
        if takes_page(tool) {
            assert(gives(tool, members, fields[1]));
            assert(required[1] == "page"@);
        }
        if tool == ToolName::GetPageText || tool == ToolName::RenderPage {
            assert(gives(tool, members, fields[2]));
        }
        if tool == ToolName::SearchPage {
            assert(gives(tool, members, fields[2]));
            assert(required[2] == "query"@);
        }
    }
}

} // verus!
