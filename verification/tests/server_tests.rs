//! The catalog, the reading of calls, and the shaping of responses.

use std::cell::Cell;

use mupdf_rs_mcp_server::arguments::{
    read_i32, read_number_or, read_optional_text, read_source, read_source_value, read_text,
    read_text_or, ProtocolFault,
};
use mupdf_rs_mcp_server::error::MupdfServerError;
use mupdf_rs_mcp_server::json::{find, Member, Number, Value};
use mupdf_rs_mcp_server::catalog::{catalog, ToolName};
use mupdf_rs_mcp_server::request::{read_arguments, read_call, ToolRequest};
use mupdf_rs_mcp_server::schema::list_tools;
use mupdf_rs_mcp_server::server::{respond, server_info, MupdfServer};
use mupdf_rs_mcp_server::state::DocumentStore;
use mupdf_rs_mcp_server::tools::DocumentSource;

const NAMES: [&str; 11] = [
    "import_document",
    "close_document",
    "list_documents",
    "get_page_count",
    "get_metadata",
    "get_outlines",
    "get_page_bounds",
    "get_page_text",
    "search_page",
    "render_page",
    "oneshot_get_bookmarks",
];

fn from_json(value: &serde_json::Value) -> Value {
    match value {
        serde_json::Value::Null => Value::Null,
        serde_json::Value::Bool(b) => Value::Bool(*b),
        serde_json::Value::Number(n) => {
            if let Some(u) = n.as_u64() {
                Value::Number(Number::Unsigned(u))
            } else if let Some(i) = n.as_i64() {
                Value::Number(Number::Negative(i))
            } else {
                Value::Number(Number::Real(n.as_f64().unwrap_or(0.0).to_bits()))
            }
        }
        serde_json::Value::String(s) => Value::Text(s.clone()),
        serde_json::Value::Array(items) => Value::List(items.iter().map(from_json).collect()),
        serde_json::Value::Object(map) => Value::Object(
            map.iter()
                .map(|(name, value)| Member { name: name.clone(), value: from_json(value) })
                .collect(),
        ),
    }
}

/// The members of the object that `json` spells out.
fn args(json: &str) -> Vec<Member> {
    let parsed: serde_json::Value = serde_json::from_str(json).unwrap();
    match from_json(&parsed) {
        Value::Object(members) => members,
        _ => panic!("the arguments of a call are an object"),
    }
}

fn text_of(value: Option<&Value>) -> Option<&str> {
    match value {
        Some(Value::Text(text)) => Some(text.as_str()),
        _ => None,
    }
}

fn members_of(value: Option<&Value>) -> &Vec<Member> {
    match value {
        Some(Value::Object(members)) => members,
        _ => panic!("expected an object"),
    }
}

fn texts_of(value: Option<&Value>) -> Vec<String> {
    match value {
        Some(Value::List(items)) => items
            .iter()
            .map(|item| match item {
                Value::Text(text) => text.clone(),
                _ => panic!("expected a text"),
            })
            .collect(),
        None => Vec::new(),
        _ => panic!("expected a list"),
    }
}

// ============== Catalog ==============

#[test]
fn the_catalog_has_the_eleven_tools_in_order() {
    let names: Vec<&str> = catalog().into_iter().map(|tool| tool.name()).collect();
    assert_eq!(names, NAMES.to_vec());
}

#[test]
fn every_tool_is_found_by_its_name() {
    for tool in catalog() {
        assert_eq!(ToolName::from_name(tool.name()), Some(tool));
    }
}

#[test]
fn names_outside_the_catalog_find_nothing() {
    for name in ["", "import", "Import_Document", "get_page_links", "needs_password", "render_page "]
    {
        assert_eq!(ToolName::from_name(name), None);
    }
}

#[test]
fn only_the_oneshot_tool_works_without_a_session() {
    for tool in catalog() {
        assert_eq!(tool.is_stateful(), tool != ToolName::OneshotGetBookmarks);
        let tag = if tool.is_stateful() { "[STATEFUL]" } else { "[ONESHOT]" };
        assert!(tool.description().starts_with(tag));
    }
}

#[test]
fn the_listing_describes_every_tool() {
    let tools = list_tools();
    assert_eq!(tools.len(), 11);
    for (listed, tool) in tools.iter().zip(catalog()) {
        assert_eq!(listed.name, tool.name());
        assert_eq!(listed.description, tool.description());
        let schema = members_of(Some(&listed.input_schema));
        assert_eq!(text_of(find(schema, "type")), Some("object"));
    }
}

fn declared(tool: ToolName) -> (Vec<String>, Vec<String>) {
    let schema = tool.input_schema();
    let members = members_of(Some(&schema));
    let properties: Vec<String> =
        members_of(find(members, "properties")).iter().map(|m| m.name.clone()).collect();
    (properties, texts_of(find(members, "required")))
}

fn strings(names: &[&str]) -> Vec<String> {
    names.iter().map(|name| name.to_string()).collect()
}

#[test]
fn schemas_declare_the_fields_of_each_tool() {
    assert_eq!(
        declared(ToolName::ImportDocument),
        (strings(&["source", "password"]), strings(&["source"]))
    );
    assert_eq!(
        declared(ToolName::OneshotGetBookmarks),
        (strings(&["source", "password"]), strings(&["source"]))
    );
    assert_eq!(declared(ToolName::ListDocuments), (strings(&[]), strings(&[])));
    for tool in [
        ToolName::CloseDocument,
        ToolName::GetPageCount,
        ToolName::GetMetadata,
        ToolName::GetOutlines,
    ] {
        assert_eq!(declared(tool), (strings(&["document_id"]), strings(&["document_id"])));
    }
    assert_eq!(
        declared(ToolName::GetPageBounds),
        (strings(&["document_id", "page"]), strings(&["document_id", "page"]))
    );
    assert_eq!(
        declared(ToolName::GetPageText),
        (strings(&["document_id", "page", "format"]), strings(&["document_id", "page"]))
    );
    assert_eq!(
        declared(ToolName::SearchPage),
        (strings(&["document_id", "page", "query"]), strings(&["document_id", "page", "query"]))
    );
    assert_eq!(
        declared(ToolName::RenderPage),
        (strings(&["document_id", "page", "scale"]), strings(&["document_id", "page"]))
    );
}

#[test]
fn a_schema_without_required_fields_says_nothing_of_them() {
    let schema = ToolName::ListDocuments.input_schema();
    assert!(find(members_of(Some(&schema)), "required").is_none());
}

#[test]
fn the_schema_of_the_format_names_the_default_and_the_choices() {
    let schema = ToolName::GetPageText.input_schema();
    let properties = members_of(find(members_of(Some(&schema)), "properties"));
    let format = members_of(find(properties, "format"));
    assert_eq!(text_of(find(format, "type")), Some("string"));
    assert_eq!(text_of(find(format, "default")), Some("plain"));
    assert_eq!(texts_of(find(format, "enum")), strings(&["plain", "html", "json", "xml"]));
    let page = members_of(find(properties, "page"));
    assert_eq!(text_of(find(page, "type")), Some("integer"));
    assert_eq!(text_of(find(page, "description")), Some("Page number (0-indexed)"));
}

#[test]
fn the_schema_of_the_scale_names_the_default() {
    let schema = ToolName::RenderPage.input_schema();
    let properties = members_of(find(members_of(Some(&schema)), "properties"));
    let scale = members_of(find(properties, "scale"));
    assert_eq!(text_of(find(scale, "type")), Some("number"));
    assert!(matches!(find(scale, "default"), Some(Value::Number(Number::Unsigned(1)))));
}

#[test]
fn the_schema_of_a_source_offers_the_two_forms() {
    let schema = ToolName::ImportDocument.input_schema();
    let properties = members_of(find(members_of(Some(&schema)), "properties"));
    let source = members_of(find(properties, "source"));
    let forms = match find(source, "oneOf") {
        Some(Value::List(forms)) => forms,
        _ => panic!("expected a list of forms"),
    };
    assert_eq!(forms.len(), 2);
    let by_path = members_of(Some(&forms[0]));
    assert_eq!(texts_of(find(by_path, "required")), strings(&["path"]));
    let inline = members_of(Some(&forms[1]));
    assert_eq!(texts_of(find(inline, "required")), strings(&["base64"]));
    let names: Vec<String> =
        members_of(find(inline, "properties")).iter().map(|m| m.name.clone()).collect();
    assert_eq!(names, strings(&["base64", "filename"]));
}

#[test]
fn schemas_describe_their_fields() {
    let described = |tool: ToolName, field: &str| -> Option<String> {
        let schema = tool.input_schema();
        let properties = members_of(find(members_of(Some(&schema)), "properties"));
        text_of(find(members_of(find(properties, field)), "description")).map(str::to_string)
    };
    assert_eq!(
        described(ToolName::ImportDocument, "password"),
        Some("Password for encrypted documents".to_string())
    );
    assert_eq!(
        described(ToolName::SearchPage, "query"),
        Some("Text to search for".to_string())
    );
    assert_eq!(
        described(ToolName::RenderPage, "scale"),
        Some("Scale factor (1.0 = 72 DPI)".to_string())
    );
    assert_eq!(described(ToolName::CloseDocument, "document_id"), None);
    assert_eq!(described(ToolName::GetPageText, "format"), None);

    let schema = ToolName::OneshotGetBookmarks.input_schema();
    let properties = members_of(find(members_of(Some(&schema)), "properties"));
    let forms = match find(members_of(find(properties, "source")), "oneOf") {
        Some(Value::List(forms)) => forms,
        _ => panic!("expected a list of forms"),
    };
    let path = members_of(find(members_of(find(members_of(Some(&forms[0])), "properties")), "path"));
    assert_eq!(text_of(find(path, "type")), Some("string"));
    assert_eq!(text_of(find(path, "description")), Some("File path to PDF"));
    let inline = members_of(find(members_of(Some(&forms[1])), "properties"));
    assert_eq!(
        text_of(find(members_of(find(inline, "base64")), "description")),
        Some("Base64-encoded PDF content")
    );
    assert_eq!(
        text_of(find(members_of(find(inline, "filename")), "description")),
        Some("Optional filename hint")
    );
}

// ============== Members ==============

#[test]
fn the_first_member_of_a_name_is_found() {
    let members = vec![
        Member { name: "a".to_string(), value: Value::Bool(true) },
        Member { name: "b".to_string(), value: Value::Null },
        Member { name: "a".to_string(), value: Value::Bool(false) },
    ];
    assert!(matches!(find(&members, "a"), Some(Value::Bool(true))));
    assert!(matches!(find(&members, "b"), Some(Value::Null)));
    assert!(find(&members, "c").is_none());
    assert!(find(&Vec::new(), "a").is_none());
}

// ============== Fields ==============

#[test]
fn a_required_text_must_be_there_and_be_a_text() {
    assert_eq!(read_text(&args(r#"{"id": "x"}"#), "id").unwrap(), "x");
    assert!(matches!(
        read_text(&args(r#"{}"#), "id"),
        Err(ProtocolFault::MissingField(name)) if name == "id"
    ));
    for json in [r#"{"id": null}"#, r#"{"id": 5}"#, r#"{"id": ["x"]}"#, r#"{"id": true}"#] {
        assert!(matches!(
            read_text(&args(json), "id"),
            Err(ProtocolFault::InvalidField(name)) if name == "id"
        ));
    }
}

#[test]
fn an_optional_text_may_be_left_out_or_null() {
    assert_eq!(read_optional_text(&args(r#"{}"#), "pw").unwrap(), None);
    assert_eq!(read_optional_text(&args(r#"{"pw": null}"#), "pw").unwrap(), None);
    assert_eq!(read_optional_text(&args(r#"{"pw": "s"}"#), "pw").unwrap(), Some("s".to_string()));
    assert!(matches!(
        read_optional_text(&args(r#"{"pw": 1}"#), "pw"),
        Err(ProtocolFault::InvalidField(name)) if name == "pw"
    ));
}

#[test]
fn a_text_with_a_default_falls_back_when_left_out() {
    assert_eq!(read_text_or(&args(r#"{}"#), "f", "plain".to_string()).unwrap(), "plain");
    assert_eq!(read_text_or(&args(r#"{"f": "xml"}"#), "f", "plain".to_string()).unwrap(), "xml");
    assert!(matches!(
        read_text_or(&args(r#"{"f": null}"#), "f", "plain".to_string()),
        Err(ProtocolFault::InvalidField(_))
    ));
}

#[test]
fn an_integer_must_be_whole_and_in_range() {
    assert_eq!(read_i32(&args(r#"{"p": 0}"#), "p").unwrap(), 0);
    assert_eq!(read_i32(&args(r#"{"p": -1}"#), "p").unwrap(), -1);
    assert_eq!(read_i32(&args(r#"{"p": 2147483647}"#), "p").unwrap(), i32::MAX);
    assert_eq!(read_i32(&args(r#"{"p": -2147483648}"#), "p").unwrap(), i32::MIN);
    for json in [
        r#"{"p": 2147483648}"#,
        r#"{"p": -2147483649}"#,
        r#"{"p": 1.5}"#,
        r#"{"p": 1.0}"#,
        r#"{"p": "1"}"#,
        r#"{"p": null}"#,
        r#"{"p": 18446744073709551615}"#,
    ] {
        assert!(matches!(
            read_i32(&args(json), "p"),
            Err(ProtocolFault::InvalidField(name)) if name == "p"
        ));
    }
    assert!(matches!(
        read_i32(&args(r#"{}"#), "p"),
        Err(ProtocolFault::MissingField(name)) if name == "p"
    ));
}

#[test]
fn a_number_with_a_default_takes_any_number() {
    let one = Number::Unsigned(1);
    assert_eq!(read_number_or(&args(r#"{}"#), "s", one).unwrap(), one);
    assert_eq!(read_number_or(&args(r#"{"s": 2}"#), "s", one).unwrap(), Number::Unsigned(2));
    assert_eq!(read_number_or(&args(r#"{"s": -2}"#), "s", one).unwrap(), Number::Negative(-2));
    assert_eq!(
        read_number_or(&args(r#"{"s": 1.5}"#), "s", one).unwrap(),
        Number::Real(1.5f64.to_bits())
    );
    assert!(matches!(
        read_number_or(&args(r#"{"s": "2"}"#), "s", one),
        Err(ProtocolFault::InvalidField(name)) if name == "s"
    ));
}

fn source_in(json: &str) -> Option<DocumentSource> {
    let parsed: serde_json::Value = serde_json::from_str(json).unwrap();
    read_source_value(&from_json(&parsed))
}

#[test]
fn a_path_wins_over_an_inline_document() {
    match source_in(r#"{"base64": "AAEC", "path": "/a.pdf"}"#) {
        Some(DocumentSource::FilePath { path }) => assert_eq!(path, "/a.pdf"),
        _ => panic!("expected FilePath"),
    }
}

#[test]
fn an_inline_document_may_come_without_a_name() {
    for json in [r#"{"base64": "AAEC"}"#, r#"{"base64": "AAEC", "filename": null}"#] {
        match source_in(json) {
            Some(DocumentSource::Base64 { base64, filename }) => {
                assert_eq!(base64, "AAEC");
                assert_eq!(filename, None);
            }
            _ => panic!("expected Base64"),
        }
    }
}

#[test]
fn a_path_of_the_wrong_kind_falls_back_to_the_inline_form() {
    match source_in(r#"{"path": 5, "base64": "AAEC"}"#) {
        Some(DocumentSource::Base64 { base64, .. }) => assert_eq!(base64, "AAEC"),
        _ => panic!("expected Base64"),
    }
}

#[test]
fn what_fits_neither_form_is_no_source() {
    for json in [
        r#"{}"#,
        r#"{"filename": "a.pdf"}"#,
        r#"{"base64": 5}"#,
        r#"{"base64": "AAEC", "filename": 5}"#,
        r#""/a.pdf""#,
        r#"["/a.pdf"]"#,
        r#"null"#,
    ] {
        assert!(source_in(json).is_none());
    }
}

#[test]
fn a_source_must_be_there() {
    assert!(matches!(
        read_source(&args(r#"{}"#), "source"),
        Err(ProtocolFault::MissingField(name)) if name == "source"
    ));
    assert!(matches!(
        read_source(&args(r#"{"source": {}}"#), "source"),
        Err(ProtocolFault::InvalidField(name)) if name == "source"
    ));
    assert!(read_source(&args(r#"{"source": {"path": "p"}}"#), "source").is_ok());
}

// ============== Calls ==============

#[test]
fn an_unknown_tool_is_a_fault_of_the_request() {
    match read_call("frobnicate", &args(r#"{"document_id": "x"}"#)) {
        Err(fault) => {
            assert!(matches!(&fault, ProtocolFault::UnknownTool(name) if name == "frobnicate"));
            assert_eq!(fault.message(), "Unknown tool: frobnicate");
        }
        Ok(_) => panic!("expected a fault"),
    }
}

#[test]
fn an_import_is_read_with_its_source_and_password() {
    let json = r#"{"source": {"base64": "AAEC", "filename": "a.pdf"}, "password": "pw"}"#;
    match read_call("import_document", &args(json)).unwrap() {
        ToolRequest::ImportDocument(params) => {
            assert!(matches!(
                params.source,
                DocumentSource::Base64 { base64, filename }
                    if base64 == "AAEC" && filename == Some("a.pdf".to_string())
            ));
            assert_eq!(params.password, Some("pw".to_string()));
        }
        _ => panic!("expected ImportDocument"),
    }
    match read_call("import_document", &args(r#"{"source": {"path": "/a"}}"#)).unwrap() {
        ToolRequest::ImportDocument(params) => assert_eq!(params.password, None),
        _ => panic!("expected ImportDocument"),
    }
}

#[test]
fn the_tools_on_a_document_are_read_with_its_identifier() {
    let members = args(r#"{"document_id": "d-1", "extra": [1, 2]}"#);
    assert!(matches!(
        read_call("close_document", &members).unwrap(),
        ToolRequest::CloseDocument(p) if p.document_id == "d-1"
    ));
    assert!(matches!(
        read_call("get_page_count", &members).unwrap(),
        ToolRequest::GetPageCount(p) if p.document_id == "d-1"
    ));
    assert!(matches!(
        read_call("get_metadata", &members).unwrap(),
        ToolRequest::GetMetadata(p) if p.document_id == "d-1"
    ));
    assert!(matches!(
        read_call("get_outlines", &members).unwrap(),
        ToolRequest::GetOutlines(p) if p.document_id == "d-1"
    ));
}

#[test]
fn listing_takes_any_arguments() {
    assert!(matches!(
        read_call("list_documents", &args(r#"{}"#)).unwrap(),
        ToolRequest::ListDocuments(_)
    ));
    assert!(matches!(
        read_call("list_documents", &args(r#"{"document_id": 5}"#)).unwrap(),
        ToolRequest::ListDocuments(_)
    ));
}

#[test]
fn the_tools_on_a_page_are_read_with_the_page() {
    let members = args(r#"{"document_id": "d", "page": 3}"#);
    assert!(matches!(
        read_call("get_page_bounds", &members).unwrap(),
        ToolRequest::GetPageBounds(p) if p.document_id == "d" && p.page == 3
    ));
    assert!(matches!(
        read_call("get_page_bounds", &args(r#"{"document_id": "d", "page": -1}"#)).unwrap(),
        ToolRequest::GetPageBounds(p) if p.page == -1
    ));
}

#[test]
fn the_format_defaults_to_plain() {
    assert!(matches!(
        read_call("get_page_text", &args(r#"{"document_id": "d", "page": 0}"#)).unwrap(),
        ToolRequest::GetPageText(p) if p.format == "plain" && p.page == 0
    ));
    assert!(matches!(
        read_call("get_page_text", &args(r#"{"document_id": "d", "page": 0, "format": "bogus"}"#))
            .unwrap(),
        ToolRequest::GetPageText(p) if p.format == "bogus"
    ));
}

#[test]
fn the_scale_defaults_to_one() {
    assert!(matches!(
        read_call("render_page", &args(r#"{"document_id": "d", "page": 0}"#)).unwrap(),
        ToolRequest::RenderPage(p) if p.scale == Number::Unsigned(1)
    ));
    assert!(matches!(
        read_call("render_page", &args(r#"{"document_id": "d", "page": 0, "scale": 2.0}"#)).unwrap(),
        ToolRequest::RenderPage(p) if p.scale == Number::Real(2.0f64.to_bits())
    ));
}

#[test]
fn a_search_is_read_with_its_query() {
    assert!(matches!(
        read_call("search_page", &args(r#"{"document_id": "d", "page": 1, "query": "the"}"#))
            .unwrap(),
        ToolRequest::SearchPage(p) if p.query == "the" && p.page == 1 && p.document_id == "d"
    ));
}

#[test]
fn the_oneshot_tool_is_read_with_its_source() {
    match read_call("oneshot_get_bookmarks", &args(r#"{"source": {"path": "/a.pdf"}}"#)).unwrap() {
        ToolRequest::OneshotGetBookmarks(params) => {
            assert!(matches!(params.source, DocumentSource::FilePath { path } if path == "/a.pdf"));
            assert_eq!(params.password, None);
        }
        _ => panic!("expected OneshotGetBookmarks"),
    }
}

#[test]
fn a_missing_field_is_a_fault_of_the_request() {
    let cases = [
        ("import_document", r#"{}"#, "source"),
        ("oneshot_get_bookmarks", r#"{"password": "x"}"#, "source"),
        ("close_document", r#"{}"#, "document_id"),
        ("get_page_count", r#"{"page": 1}"#, "document_id"),
        ("get_page_bounds", r#"{"document_id": "d"}"#, "page"),
        ("get_page_text", r#"{"page": 1}"#, "document_id"),
        ("search_page", r#"{"document_id": "d", "page": 1}"#, "query"),
        ("render_page", r#"{"document_id": "d", "scale": 2}"#, "page"),
    ];
    for (tool, json, field) in cases {
        match read_call(tool, &args(json)) {
            Err(fault) => {
                assert!(matches!(&fault, ProtocolFault::MissingField(name) if name == field));
                assert_eq!(fault.message(), format!("missing field `{}`", field));
            }
            Ok(_) => panic!("expected a fault"),
        }
    }
}

#[test]
fn a_field_of_the_wrong_kind_is_a_fault_of_the_request() {
    let cases = [
        ("import_document", r#"{"source": "a.pdf"}"#, "source"),
        ("import_document", r#"{"source": {"path": "a"}, "password": 5}"#, "password"),
        ("close_document", r#"{"document_id": 5}"#, "document_id"),
        ("get_page_bounds", r#"{"document_id": "d", "page": "1"}"#, "page"),
        ("get_page_bounds", r#"{"document_id": "d", "page": 1.5}"#, "page"),
        ("get_page_text", r#"{"document_id": "d", "page": 1, "format": 7}"#, "format"),
        ("search_page", r#"{"document_id": "d", "page": 1, "query": null}"#, "query"),
        ("render_page", r#"{"document_id": "d", "page": 1, "scale": "big"}"#, "scale"),
    ];
    for (tool, json, field) in cases {
        match read_call(tool, &args(json)) {
            Err(fault) => {
                assert!(matches!(&fault, ProtocolFault::InvalidField(name) if name == field));
                assert_eq!(fault.message(), format!("invalid value for field `{}`", field));
            }
            Ok(_) => panic!("expected a fault"),
        }
    }
}

#[test]
fn the_first_field_at_fault_decides() {
    assert!(matches!(
        read_call("get_page_text", &args(r#"{"page": "x", "format": 5}"#)),
        Err(ProtocolFault::MissingField(name)) if name == "document_id"
    ));
    assert!(matches!(
        read_call("get_page_text", &args(r#"{"document_id": "d", "page": "x", "format": 5}"#)),
        Err(ProtocolFault::InvalidField(name)) if name == "page"
    ));
}

#[test]
fn arguments_are_read_for_the_tool_that_is_named() {
    let members = args(r#"{"document_id": "d", "page": 2, "query": "q"}"#);
    assert!(matches!(
        read_arguments(ToolName::SearchPage, &members).unwrap(),
        ToolRequest::SearchPage(_)
    ));
    assert!(matches!(
        read_arguments(ToolName::GetPageCount, &members).unwrap(),
        ToolRequest::GetPageCount(_)
    ));
    assert!(read_arguments(ToolName::ImportDocument, &members).is_err());
}

// ============== Responses ==============

#[test]
fn a_result_is_sent_as_it_is() {
    let response = respond(Ok("{\"page_count\":3}".to_string()));
    assert!(!response.is_error);
    assert_eq!(response.text, "{\"page_count\":3}");
}

#[test]
fn a_failure_is_sent_as_its_description() {
    let response = respond(Err(MupdfServerError::InvalidPageNumber { page: 9, total: 3, max: 2 }));
    assert!(response.is_error);
    assert_eq!(response.text, "Invalid page number: 9 (document has 3 pages, valid range: 0-2)");

    let response = respond(Err(MupdfServerError::DocumentNotFound("x".to_string())));
    assert!(response.is_error);
    assert_eq!(response.text, "Document not found: x");
}

// ============== Server ==============

#[test]
fn a_new_server_has_no_open_documents() {
    let server: MupdfServer<u32> = MupdfServer::new();
    assert!(server.store().is_empty());
    assert!(server.store().list().is_empty());
    let server: MupdfServer<u32> = MupdfServer::default();
    assert!(server.store().is_empty());
}

#[test]
fn the_store_of_a_server_keeps_what_tools_do_to_it() {
    let mut server: MupdfServer<u32> = MupdfServer::new();
    let id = server.store_mut().insert(5, 2);
    assert_eq!(server.store().len(), 1);
    assert_eq!(server.store().get_info(&id).unwrap().page_count, 2);
    server.store_mut().remove(&id).unwrap();
    assert!(server.store().is_empty());
}

#[test]
fn the_server_presents_itself() {
    let info = server_info();
    assert_eq!(info.name, "mupdf-mcp-server");
    assert_eq!(info.title, "MuPDF MCP Server");
    assert!(info.instructions.starts_with("MuPDF-based PDF processing server. TWO USAGE PATTERNS:"));
    assert!(info.instructions.contains("import_document \u{2192} get document_id"));
}

fn never_stateful(
    _store: &mut DocumentStore<u32>,
    _request: ToolRequest,
) -> Result<String, MupdfServerError> {
    panic!("no tool that works on a session was called")
}

fn never_oneshot(_request: ToolRequest) -> Result<String, MupdfServerError> {
    panic!("no tool that keeps no session was called")
}

#[test]
fn a_call_of_an_unknown_tool_runs_nothing() {
    let mut server: MupdfServer<u32> = MupdfServer::new();
    let outcome = server.call_tool("frobnicate", &args(r#"{}"#), never_stateful, never_oneshot);
    assert!(matches!(outcome, Err(ProtocolFault::UnknownTool(name)) if name == "frobnicate"));
}

#[test]
fn a_call_with_unfit_arguments_runs_nothing() {
    let mut server: MupdfServer<u32> = MupdfServer::new();
    let outcome =
        server.call_tool("get_page_bounds", &args(r#"{"page": 1}"#), never_stateful, never_oneshot);
    assert!(matches!(outcome, Err(ProtocolFault::MissingField(name)) if name == "document_id"));
    let outcome = server.call_tool(
        "oneshot_get_bookmarks",
        &args(r#"{"source": 5}"#),
        never_stateful,
        never_oneshot,
    );
    assert!(matches!(outcome, Err(ProtocolFault::InvalidField(name)) if name == "source"));
}

#[test]
fn a_call_of_a_tool_on_a_session_runs_with_the_store() {
    let mut server: MupdfServer<u32> = MupdfServer::new();
    let response = server
        .call_tool(
            "import_document",
            &args(r#"{"source": {"path": "/a.pdf"}}"#),
            |store: &mut DocumentStore<u32>, request: ToolRequest| {
                assert!(matches!(request, ToolRequest::ImportDocument(_)));
                Ok(store.insert(1, 9))
            },
            never_oneshot,
        )
        .unwrap();
    assert!(!response.is_error);
    assert_eq!(server.store().len(), 1);
    assert_eq!(server.store().get_info(&response.text).unwrap().page_count, 9);
}

#[test]
fn a_failure_of_a_tool_is_a_response() {
    let mut server: MupdfServer<u32> = MupdfServer::new();
    let response = server
        .call_tool(
            "close_document",
            &args(r#"{"document_id": "gone"}"#),
            |store: &mut DocumentStore<u32>, request: ToolRequest| match request {
                ToolRequest::CloseDocument(params) => {
                    store.remove(&params.document_id).map(|_| "{\"success\":true}".to_string())
                }
                _ => panic!("expected CloseDocument"),
            },
            never_oneshot,
        )
        .unwrap();
    assert!(response.is_error);
    assert_eq!(response.text, "Document not found: gone");
}

#[test]
fn a_call_of_the_oneshot_tool_runs_without_the_store() {
    let mut server: MupdfServer<u32> = MupdfServer::new();
    let kept = server.store_mut().insert(3, 4);
    let ran = Cell::new(false);
    let response = server
        .call_tool(
            "oneshot_get_bookmarks",
            &args(r#"{"source": {"base64": "AAEC"}, "password": "pw"}"#),
            never_stateful,
            |request: ToolRequest| {
                ran.set(true);
                assert!(matches!(
                    request,
                    ToolRequest::OneshotGetBookmarks(p) if p.password == Some("pw".to_string())
                ));
                Ok("{\"bookmarks\":[],\"page_count\":1}".to_string())
            },
        )
        .unwrap();
    assert!(ran.get());
    assert!(!response.is_error);
    assert_eq!(response.text, "{\"bookmarks\":[],\"page_count\":1}");
    let listed: Vec<String> = server.store().list().into_iter().map(|info| info.id).collect();
    assert_eq!(listed, vec![kept]);
}
