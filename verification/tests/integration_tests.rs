//! The tools run end to end against a stand-in for the content engine.
//!
//! The stand-in reads just enough of a file to tell a PDF from anything
//! else, and answers every question from a fixed description of one
//! two-page document.

use mupdf_rs_mcp_server::arguments::read_source_value;
use mupdf_rs_mcp_server::engine::{
    GlyphBlock, GlyphLine, Link, MetadataName, OpenRequest, Outline, Pixmap,
};
use mupdf_rs_mcp_server::error::MupdfServerError;
use mupdf_rs_mcp_server::json::{Member, Number, Value};
use mupdf_rs_mcp_server::state::DocumentStore;
use mupdf_rs_mcp_server::tools::{
    close_document, get_metadata, get_outlines, get_page_bounds, get_page_count, get_page_links,
    get_page_text, get_page_text_blocks, import_document, list_documents, oneshot_get_bookmarks,
    render_page, search_page, CloseDocumentParams, DocumentSource, GetMetadataParams,
    GetOutlinesParams, GetPageBoundsParams, GetPageCountParams, GetPageLinksParams,
    GetPageTextBlocksParams, GetPageTextParams, ImportDocumentParams, ListDocumentsParams,
    OneshotGetBookmarksParams, RenderPageParams, SearchPageParams, TextFormat,
};

/// The bytes of a small file with the header and trailer of a PDF.
fn dummy_pdf() -> Vec<u8> {
    b"%PDF-1.4\n1 0 obj\n<< /Type /Catalog /Pages 2 0 R >>\nendobj\n2 0 obj\n<< /Type /Pages /Count 2 >>\nendobj\ntrailer\n<< /Root 1 0 R >>\n%%EOF\n"
        .to_vec()
}

/// What the stand-in engine holds for an opened document.
#[derive(Debug)]
struct FakeDocument {
    pages: i32,
}

#[derive(Debug, Clone, Copy, PartialEq)]
struct Rect {
    x0: f32,
    y0: f32,
    x1: f32,
    y1: f32,
}

#[derive(Debug, Clone, Copy, PartialEq)]
struct Bounds {
    width: f32,
    height: f32,
    x0: f32,
    y0: f32,
}

#[derive(Debug, Clone, Copy, PartialEq)]
struct Quad {
    ul: (f32, f32),
    ur: (f32, f32),
    ll: (f32, f32),
    lr: (f32, f32),
}

fn open_fake(request: OpenRequest) -> Result<FakeDocument, MupdfServerError> {
    match request {
        OpenRequest::Path(path) => Err(MupdfServerError::IoError(format!("cannot open {}", path))),
        OpenRequest::Bytes { bytes, magic: _ } => {
            if bytes.starts_with(b"%PDF-") {
                Ok(FakeDocument { pages: 2 })
            } else {
                Err(MupdfServerError::MupdfError("cannot recognize document".to_string()))
            }
        }
    }
}

fn never_locked(_document: &FakeDocument) -> Result<bool, MupdfServerError> {
    Ok(false)
}

fn accept_any(
    document: FakeDocument,
    _password: &str,
) -> Result<(FakeDocument, bool), MupdfServerError> {
    Ok((document, true))
}

fn count_pages(document: &FakeDocument) -> Result<i32, MupdfServerError> {
    Ok(document.pages)
}

fn read_metadata(_document: &FakeDocument, name: MetadataName) -> Result<String, MupdfServerError> {
    match name {
        MetadataName::Title => Ok("Dummy".to_string()),
        MetadataName::Author => Ok(String::new()),
        _ => Err(MupdfServerError::MupdfError("no such entry".to_string())),
    }
}

fn read_outlines(_document: &FakeDocument) -> Result<Vec<Outline>, MupdfServerError> {
    Ok(vec![Outline {
        title: "Chapter 1".to_string(),
        uri: Some("#page=1".to_string()),
        dest: Some(0),
        down: vec![Outline {
            title: "Section 1.1".to_string(),
            uri: None,
            dest: Some(1),
            down: Vec::new(),
        }],
    }])
}

fn measure(_document: &FakeDocument, _page: i32) -> Result<Bounds, MupdfServerError> {
    Ok(Bounds { width: 612.0, height: 792.0, x0: 0.0, y0: 0.0 })
}

fn find_links(_document: &FakeDocument, _page: i32) -> Result<Vec<Link<Rect>>, MupdfServerError> {
    Ok(vec![Link {
        bounds: Rect { x0: 10.0, y0: 10.0, x1: 50.0, y1: 20.0 },
        uri: "#page=2".to_string(),
        resolved: Ok(Some(1)),
    }])
}

fn lay_out(
    _document: &FakeDocument,
    _page: i32,
) -> Result<Vec<GlyphBlock<Rect>>, MupdfServerError> {
    let bounds = Rect { x0: 72.0, y0: 72.0, x1: 200.0, y1: 90.0 };
    Ok(vec![GlyphBlock {
        bounds,
        lines: vec![GlyphLine { bounds, glyphs: "Dummy PDF file".chars().map(Some).collect() }],
    }])
}

fn write_rendition(
    _document: &FakeDocument,
    _page: i32,
    format: TextFormat,
) -> Result<String, MupdfServerError> {
    match format {
        TextFormat::Html => Ok("<div><p>Dummy PDF file</p></div>".to_string()),
        TextFormat::Json => Ok("{\"blocks\": [{\"text\": \"Dummy PDF file\"}]}".to_string()),
        TextFormat::Xml => Ok("<page><line text=\"Dummy PDF file\"/></page>".to_string()),
        TextFormat::Plain => Err(MupdfServerError::internal("plain text has no rendition")),
    }
}

fn search(
    _document: &FakeDocument,
    _page: i32,
    query: &str,
    _limit: u32,
) -> Result<Vec<Quad>, MupdfServerError> {
    if "Dummy PDF file".contains(query) {
        Ok(vec![Quad { ul: (72.0, 72.0), ur: (90.0, 72.0), ll: (72.0, 90.0), lr: (90.0, 90.0) }])
    } else {
        Ok(Vec::new())
    }
}

fn scale_of(number: Number) -> f32 {
    match number {
        Number::Unsigned(n) => n as f32,
        Number::Negative(n) => n as f32,
        Number::Real(bits) => f64::from_bits(bits) as f32,
    }
}

fn render(
    _document: &FakeDocument,
    _page: i32,
    scale: Number,
) -> Result<Pixmap, MupdfServerError> {
    let factor = scale_of(scale);
    let mut encoded = vec![0x89, 0x50, 0x4E, 0x47, 0x0D, 0x0A, 0x1A, 0x0A];
    encoded.extend_from_slice(b"\x00\x00\x00\rIHDR");
    Ok(Pixmap { width: (612.0 * factor) as u32, height: (792.0 * factor) as u32, encoded })
}

fn import(
    store: &mut DocumentStore<FakeDocument>,
    params: ImportDocumentParams,
) -> Result<mupdf_rs_mcp_server::tools::ImportDocumentResult, MupdfServerError> {
    import_document(store, params, open_fake, never_locked, accept_any, count_pages)
}

fn setup_document(store: &mut DocumentStore<FakeDocument>) -> String {
    let base64_content =
        base64::Engine::encode(&base64::engine::general_purpose::STANDARD, dummy_pdf());
    import(
        store,
        ImportDocumentParams {
            source: DocumentSource::Base64 {
                base64: base64_content,
                filename: Some("dummy.pdf".to_string()),
            },
            password: None,
        },
    )
    .unwrap()
    .document_id
}

fn from_json(value: &serde_json::Value) -> Value {
    match value {
        serde_json::Value::Null => Value::Null,
        serde_json::Value::Bool(b) => Value::Bool(*b),
        serde_json::Value::Number(n) => {
            if let Some(u) = n.as_u64() {
                Value::Number(Number::Unsigned(u))
            } else if let Some(i) = n.as_i64() {
                Value::Number(Number::Negative(i))
            } else {
                Value::Number(Number::Real(n.as_f64().unwrap_or(0.0).to_bits()))
            }
        }
        serde_json::Value::String(s) => Value::Text(s.clone()),
        serde_json::Value::Array(items) => Value::List(items.iter().map(from_json).collect()),
        serde_json::Value::Object(map) => Value::Object(
            map.iter().map(|(name, value)| Member { name: name.clone(), value: from_json(value) }).collect(),
        ),
    }
}

// ============== Store ==============

#[test]
fn test_store_new() {
    let store: DocumentStore<FakeDocument> = DocumentStore::new();
    assert!(store.is_empty());
}

#[test]
fn test_store_list_empty() {
    let store: DocumentStore<FakeDocument> = DocumentStore::new();
    let list = store.list();
    assert!(list.is_empty());
}

// ============== Reading a source ==============

#[test]
fn test_document_source_deserialize_path() {
    let json = r#"{"path": "/tmp/test.pdf"}"#;
    let parsed: serde_json::Value = serde_json::from_str(json).unwrap();
    let source = read_source_value(&from_json(&parsed)).unwrap();
    match source {
        DocumentSource::FilePath { path } => assert_eq!(path, "/tmp/test.pdf"),
        _ => panic!("Expected FilePath variant"),
    }
}

#[test]
fn test_document_source_deserialize_base64() {
    let json = r#"{"base64": "SGVsbG8=", "filename": "test.pdf"}"#;
    let parsed: serde_json::Value = serde_json::from_str(json).unwrap();
    let source = read_source_value(&from_json(&parsed)).unwrap();
    match source {
        DocumentSource::Base64 { base64, filename } => {
            assert_eq!(base64, "SGVsbG8=");
            assert_eq!(filename, Some("test.pdf".to_string()));
        }
        _ => panic!("Expected Base64 variant"),
    }
}

// ============== Session management ==============

#[test]
fn test_import_document_from_base64() {
    let mut store = DocumentStore::new();
    let base64_content =
        base64::Engine::encode(&base64::engine::general_purpose::STANDARD, dummy_pdf());

    let params = ImportDocumentParams {
        source: DocumentSource::Base64 {
            base64: base64_content,
            filename: Some("dummy.pdf".to_string()),
        },
        password: None,
    };

    let result = import(&mut store, params).unwrap();
    assert!(!result.document_id.is_empty());
    assert!(result.page_count > 0);

    close_document(&mut store, CloseDocumentParams { document_id: result.document_id }).unwrap();
}

#[test]
fn test_list_documents() {
    let mut store = DocumentStore::new();

    let list = list_documents(&store, ListDocumentsParams {});
    assert!(list.documents.is_empty());

    let base64_content =
        base64::Engine::encode(&base64::engine::general_purpose::STANDARD, dummy_pdf());
    let import_result = import(
        &mut store,
        ImportDocumentParams {
            source: DocumentSource::Base64 {
                base64: base64_content,
                filename: Some("dummy.pdf".to_string()),
            },
            password: None,
        },
    )
    .unwrap();

    let list = list_documents(&store, ListDocumentsParams {});
    assert_eq!(list.documents.len(), 1);
    assert_eq!(list.documents[0].document_id, import_result.document_id);

    close_document(&mut store, CloseDocumentParams { document_id: import_result.document_id })
        .unwrap();
}

#[test]
fn test_close_document() {
    let mut store = DocumentStore::new();

    let base64_content =
        base64::Engine::encode(&base64::engine::general_purpose::STANDARD, dummy_pdf());
    let import_result = import(
        &mut store,
        ImportDocumentParams {
            source: DocumentSource::Base64 {
                base64: base64_content,
                filename: Some("dummy.pdf".to_string()),
            },
            password: None,
        },
    )
    .unwrap();

    let close_result = close_document(
        &mut store,
        CloseDocumentParams { document_id: import_result.document_id.clone() },
    )
    .unwrap();
    assert!(close_result.success);

    let list = list_documents(&store, ListDocumentsParams {});
    assert!(list.documents.is_empty());
}

#[test]
fn test_close_nonexistent_document() {
    let mut store: DocumentStore<FakeDocument> = DocumentStore::new();

    let result =
        close_document(&mut store, CloseDocumentParams { document_id: "nonexistent-id".to_string() });

    assert!(result.is_err());
}

// ============== Document operations ==============

#[test]
fn test_get_page_count() {
    let mut store = DocumentStore::new();
    let doc_id = setup_document(&mut store);

    let result =
        get_page_count(&store, GetPageCountParams { document_id: doc_id.clone() }).unwrap();

    assert!(result.page_count > 0);

    close_document(&mut store, CloseDocumentParams { document_id: doc_id }).unwrap();
}

#[test]
fn test_get_metadata() {
    let mut store = DocumentStore::new();
    let doc_id = setup_document(&mut store);

    let result =
        get_metadata(&mut store, GetMetadataParams { document_id: doc_id.clone() }, read_metadata)
            .unwrap();

    let _ = result.title;
    let _ = result.author;
    let _ = result.subject;

    close_document(&mut store, CloseDocumentParams { document_id: doc_id }).unwrap();
}

#[test]
fn test_get_outlines() {
    let mut store = DocumentStore::new();
    let doc_id = setup_document(&mut store);

    let result =
        get_outlines(&mut store, GetOutlinesParams { document_id: doc_id.clone() }, read_outlines)
            .unwrap();

    let _ = result.outlines;

    close_document(&mut store, CloseDocumentParams { document_id: doc_id }).unwrap();
}

// ============== Page operations ==============

#[test]
fn test_get_page_bounds() {
    let mut store = DocumentStore::new();
    let doc_id = setup_document(&mut store);

    let result = get_page_bounds(
        &mut store,
        GetPageBoundsParams { document_id: doc_id.clone(), page: 0 },
        measure,
    )
    .unwrap();

    assert!(result.width > 0.0);
    assert!(result.height > 0.0);

    close_document(&mut store, CloseDocumentParams { document_id: doc_id }).unwrap();
}

#[test]
fn test_get_page_bounds_invalid_page() {
    let mut store = DocumentStore::new();
    let doc_id = setup_document(&mut store);

    let result = get_page_bounds(
        &mut store,
        GetPageBoundsParams { document_id: doc_id.clone(), page: 9999 },
        measure,
    );

    assert!(result.is_err());

    close_document(&mut store, CloseDocumentParams { document_id: doc_id }).unwrap();
}

#[test]
fn test_get_page_links() {
    let mut store = DocumentStore::new();
    let doc_id = setup_document(&mut store);

    let result = get_page_links(
        &mut store,
        GetPageLinksParams { document_id: doc_id.clone(), page: 0 },
        find_links,
    )
    .unwrap();

    let _ = result.links;

    close_document(&mut store, CloseDocumentParams { document_id: doc_id }).unwrap();
}

// ============== Text extraction ==============

#[test]
fn test_get_page_text_plain() {
    let mut store = DocumentStore::new();
    let doc_id = setup_document(&mut store);

    let result = get_page_text(
        &mut store,
        GetPageTextParams { document_id: doc_id.clone(), page: 0, format: "plain".to_string() },
        lay_out,
        write_rendition,
    )
    .unwrap();

    let _ = result.text;

    close_document(&mut store, CloseDocumentParams { document_id: doc_id }).unwrap();
}

#[test]
fn test_get_page_text_html() {
    let mut store = DocumentStore::new();
    let doc_id = setup_document(&mut store);

    let result = get_page_text(
        &mut store,
        GetPageTextParams { document_id: doc_id.clone(), page: 0, format: "html".to_string() },
        lay_out,
        write_rendition,
    )
    .unwrap();

    assert!(result.text.contains("<") || result.text.is_empty());

    close_document(&mut store, CloseDocumentParams { document_id: doc_id }).unwrap();
}

#[test]
fn test_get_page_text_json() {
    let mut store = DocumentStore::new();
    let doc_id = setup_document(&mut store);

    let result = get_page_text(
        &mut store,
        GetPageTextParams { document_id: doc_id.clone(), page: 0, format: "json".to_string() },
        lay_out,
        write_rendition,
    )
    .unwrap();

    if !result.text.is_empty() {
        let parsed: Result<serde_json::Value, _> = serde_json::from_str(&result.text);
        assert!(parsed.is_ok(), "JSON parsing failed: {}", result.text);
    }

    close_document(&mut store, CloseDocumentParams { document_id: doc_id }).unwrap();
}

#[test]
fn test_search_page() {
    let mut store = DocumentStore::new();
    let doc_id = setup_document(&mut store);

    let result = search_page(
        &mut store,
        SearchPageParams { document_id: doc_id.clone(), page: 0, query: "the".to_string() },
        search,
    )
    .unwrap();

    let _ = result.hits;

    close_document(&mut store, CloseDocumentParams { document_id: doc_id }).unwrap();
}

#[test]
fn test_get_page_text_blocks() {
    let mut store = DocumentStore::new();
    let doc_id = setup_document(&mut store);

    let result = get_page_text_blocks(
        &mut store,
        GetPageTextBlocksParams { document_id: doc_id.clone(), page: 0 },
        lay_out,
    )
    .unwrap();

    let _ = result.blocks;

    close_document(&mut store, CloseDocumentParams { document_id: doc_id }).unwrap();
}

// ============== Rendering ==============

#[test]
fn test_render_page() {
    let mut store = DocumentStore::new();
    let doc_id = setup_document(&mut store);

    let result = render_page(
        &mut store,
        RenderPageParams {
            document_id: doc_id.clone(),
            page: 0,
            scale: Number::Real(1.0f64.to_bits()),
        },
        render,
    )
    .unwrap();

    assert!(!result.image.is_empty());
    assert!(result.width > 0);
    assert!(result.height > 0);

    let decoded =
        base64::Engine::decode(&base64::engine::general_purpose::STANDARD, &result.image);
    assert!(decoded.is_ok());

    let bytes = decoded.unwrap();
    assert!(bytes.len() > 8);
    assert_eq!(&bytes[0..4], &[0x89, 0x50, 0x4E, 0x47]);

    close_document(&mut store, CloseDocumentParams { document_id: doc_id }).unwrap();
}

#[test]
fn test_render_page_with_scale() {
    let mut store = DocumentStore::new();
    let doc_id = setup_document(&mut store);

    let result_1x = render_page(
        &mut store,
        RenderPageParams {
            document_id: doc_id.clone(),
            page: 0,
            scale: Number::Real(1.0f64.to_bits()),
        },
        render,
    )
    .unwrap();

    let result_2x = render_page(
        &mut store,
        RenderPageParams {
            document_id: doc_id.clone(),
            page: 0,
            scale: Number::Real(2.0f64.to_bits()),
        },
        render,
    )
    .unwrap();

    assert_eq!(result_2x.width, result_1x.width * 2);
    assert_eq!(result_2x.height, result_1x.height * 2);

    close_document(&mut store, CloseDocumentParams { document_id: doc_id }).unwrap();
}

// ============== Oneshot ==============

#[test]
fn test_oneshot_get_bookmarks() {
    let base64_content =
        base64::Engine::encode(&base64::engine::general_purpose::STANDARD, dummy_pdf());

    let result = oneshot_get_bookmarks(
        OneshotGetBookmarksParams {
            source: DocumentSource::Base64 {
                base64: base64_content,
                filename: Some("dummy.pdf".to_string()),
            },
            password: None,
        },
        open_fake,
        never_locked,
        accept_any,
        count_pages,
        read_outlines,
    )
    .unwrap();

    assert!(result.page_count > 0);
    let _ = result.bookmarks;
}

// ============== Failures ==============

#[test]
fn test_document_not_found() {
    let store: DocumentStore<FakeDocument> = DocumentStore::new();

    let result =
        get_page_count(&store, GetPageCountParams { document_id: "nonexistent-doc-id".to_string() });

    assert!(result.is_err());
}

#[test]
fn test_invalid_base64() {
    let mut store = DocumentStore::new();

    let result = import(
        &mut store,
        ImportDocumentParams {
            source: DocumentSource::Base64 {
                base64: "not-valid-base64!!!".to_string(),
                filename: Some("test.pdf".to_string()),
            },
            password: None,
        },
    );

    assert!(result.is_err());
}
