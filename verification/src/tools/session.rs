//! Tools that open, close and list sessions, and the resolution of a
//! document source into an opened document.

use crate::engine::{OpenRequest, OpenRequestView};
use crate::error::{fails_with, ErrorView, MupdfServerError};
use crate::state::{close_of, info_of, DocumentStore, StoredDocument};
use crate::trusted::{
    base64_decode, duration_seconds, instant_elapsed, standard_base64_decoding,
};
use vstd::prelude::*;
use vstd::string::StringExecFns;

verus! {

/// Where a document comes from.
#[derive(Debug)]
pub enum DocumentSource {
    /// A file on the server.
    FilePath {
        /// The path of the file.
        path: String,
    },
    /// The document itself, in standard Base64.
    Base64 {
        /// The encoded document.
        base64: String,
        /// A file name that tells the kind of the document.
        filename: Option<String>,
    },
}

impl Clone for DocumentSource {
    fn clone(&self) -> (copy: Self)
        ensures
            copy == *self,
    {
        match self {
            DocumentSource::FilePath { path } => DocumentSource::FilePath { path: path.clone() },
            DocumentSource::Base64 { base64, filename } => DocumentSource::Base64 {
                base64: base64.clone(),
                filename: match filename {
                    Some(name) => Some(name.clone()),
                    None => None,
                },
            },
        }
    }
}

/// What tells the engine how to read an inline document: the file name
/// that came with it, or the media type of PDF where none came.
pub open spec fn magic_for(filename: Option<String>) -> Seq<char> {
    match filename {
        Some(name) => name@,
        None => "application/pdf"@,
    }
}

/// The request that the engine gets for a source, or the failure of an
/// inline document that is not valid Base64.
pub open spec fn request_for(source: DocumentSource) -> Result<OpenRequestView, ErrorView> {
    match source {
        DocumentSource::FilePath { path } => Ok(OpenRequestView::Path(path@)),
        DocumentSource::Base64 { base64, filename } => match standard_base64_decoding(base64@) {
            Ok(bytes) => Ok(OpenRequestView::Bytes { bytes, magic: magic_for(filename) }),
            Err(failure) => Err(ErrorView::Base64Error(failure)),
        },
    }
}

/// How the outcome of opening a protected document follows from the
/// engine's verdict on the password: the document as the engine hands it
/// back, if the password was accepted.
pub open spec fn verdict_outcome<H>(
    verdict: Result<(H, bool), MupdfServerError>,
    outcome: Result<H, MupdfServerError>,
) -> bool {
    match verdict {
        Ok((unlocked, accepted)) => if accepted {
            outcome == Ok::<H, MupdfServerError>(unlocked)
        } else {
            fails_with(outcome, ErrorView::InvalidPassword)
        },
        Err(e) => outcome == Err::<H, MupdfServerError>(e),
    }
}

/// How the outcome of opening follows from whether the opened document
/// `opened` asks for a password: a document that asks for none is handed
/// out as it is; one that asks for one is refused without a password, and
/// with one it is for `authenticate` to decide.
pub open spec fn unlock_outcome<H, A: FnOnce(H, &str) -> Result<(H, bool), MupdfServerError>>(
    authenticate: A,
    password: Option<&str>,
    opened: H,
    asks: Result<bool, MupdfServerError>,
    outcome: Result<H, MupdfServerError>,
) -> bool {
    match asks {
        Ok(protected) => if !protected {
            outcome == Ok::<H, MupdfServerError>(opened)
        } else {
            match password {
                None => fails_with(outcome, ErrorView::PasswordRequired),
                Some(given) => exists|verdict: Result<(H, bool), MupdfServerError>| #[trigger]
                    authenticate.ensures((opened, given), verdict) && verdict_outcome(
                        verdict,
                        outcome,
                    ),
            }
        },
        Err(e) => outcome == Err::<H, MupdfServerError>(e),
    }
}

/// How the outcome of opening follows from what the engine made of the
/// request.
pub open spec fn engine_outcome<
    H,
    N: FnOnce(&H) -> Result<bool, MupdfServerError>,
    A: FnOnce(H, &str) -> Result<(H, bool), MupdfServerError>,
>(
    needs_password: N,
    authenticate: A,
    password: Option<&str>,
    made: Result<H, MupdfServerError>,
    outcome: Result<H, MupdfServerError>,
) -> bool {
    match made {
        Ok(opened) => exists|asks: Result<bool, MupdfServerError>| #[trigger]
            needs_password.ensures((&opened,), asks) && unlock_outcome(
                authenticate,
                password,
                opened,
                asks,
                outcome,
            ),
        Err(e) => outcome == Err::<H, MupdfServerError>(e),
    }
}

/// How the outcome of opening a source follows from the source, the
/// password and what the engine does: an inline document that is not
/// valid Base64 is refused before the engine is asked; otherwise the
/// engine opens the request, and the password is dealt with.
pub open spec fn open_outcome<
    H,
    O: FnOnce(OpenRequest) -> Result<H, MupdfServerError>,
    N: FnOnce(&H) -> Result<bool, MupdfServerError>,
    A: FnOnce(H, &str) -> Result<(H, bool), MupdfServerError>,
>(
    source: DocumentSource,
    password: Option<&str>,
    open_engine: O,
    needs_password: N,
    authenticate: A,
    outcome: Result<H, MupdfServerError>,
) -> bool {
    match request_for(source) {
        Ok(wanted) => exists|request: OpenRequest, made: Result<H, MupdfServerError>|
            request@ == wanted && #[trigger] open_engine.ensures((request,), made)
                && engine_outcome(needs_password, authenticate, password, made, outcome),
        Err(e) => fails_with(outcome, e),
    }
}

impl DocumentSource {
    /// Turns the source into the request that the engine gets. An inline
    /// document is decoded; one that is not valid Base64 is refused.
    pub fn resolve(&self) -> (resolved: Result<OpenRequest, MupdfServerError>)
        ensures
            match resolved {
                Ok(request) => request_for(*self) == Ok::<OpenRequestView, ErrorView>(request@),
                Err(e) => request_for(*self) == Err::<OpenRequestView, ErrorView>(e@),
            },
    {
        match self {
            DocumentSource::FilePath { path } => Ok(OpenRequest::Path(path.clone())),
            DocumentSource::Base64 { base64, filename } => {
                match base64_decode(base64.as_str()) {
                    Ok(bytes) => {
                        let magic = match filename {
                            Some(name) => name.clone(),
                            None => String::from_str("application/pdf"),
                        };
                        Ok(OpenRequest::Bytes { bytes, magic })
                    },
                    Err(cause) => Err(MupdfServerError::Base64Error(cause)),
                }
            },
        }
    }

    /// Opens the document that the source names and unlocks it with
    /// `password` where it is protected.
    pub fn open<H, O, N, A>(
        &self,
        password: Option<&str>,
        open_engine: O,
        needs_password: N,
        authenticate: A,
    ) -> (outcome: Result<H, MupdfServerError>)
        where
            O: FnOnce(OpenRequest) -> Result<H, MupdfServerError>,
            N: FnOnce(&H) -> Result<bool, MupdfServerError>,
            A: FnOnce(H, &str) -> Result<(H, bool), MupdfServerError>,
        requires
            forall|request: OpenRequest|
                request_for(*self) == Ok::<OpenRequestView, ErrorView>(request@) ==> #[trigger] open_engine.requires(
                    (request,),
                ),
            forall|opened: &H| #[trigger] needs_password.requires((opened,)),
            forall|handle: H, given: &str|
                password == Some(given) ==> #[trigger] authenticate.requires((handle, given)),
        ensures
            open_outcome(*self, password, open_engine, needs_password, authenticate, outcome),
    {
        let request = self.resolve()?;
        let document = open_engine(request)?;
        if needs_password(&document)? {
            match password {
                Some(given) => {
                    let (unlocked, accepted) = authenticate(document, given)?;
                    if !accepted {
                        return Err(MupdfServerError::InvalidPassword);
                    }
                    Ok(unlocked)
                },
                None => Err(MupdfServerError::PasswordRequired),
            }
        } else {
            Ok(document)
        }
    }
}

/// The arguments of `import_document`.
#[derive(Debug)]
pub struct ImportDocumentParams {
    /// Where the document comes from.
    pub source: DocumentSource,
    /// The password of a protected document.
    pub password: Option<String>,
}

/// A newly opened session.
#[derive(Debug)]
pub struct ImportDocumentResult {
    /// The identifier under which the document stays open.
    pub document_id: String,
    /// The number of pages of the document.
    pub page_count: i32,
}

/// The password of a call as the text that is handed to the engine.
pub open spec fn password_of(password: Option<String>, given: Option<&str>) -> bool {
    match password {
        Some(text) => given matches Some(handed) && handed@ == text@,
        None => given is None,
    }
}

/// How the outcome of an import, and the store after it, follow from the
/// page count that the engine reports for the opened document: the
/// document is stored under the identifier that is returned, with that
/// page count; if the engine fails, nothing is stored.
pub open spec fn counted_outcome<H>(
    before: Map<Seq<char>, StoredDocument<H>>,
    after: Map<Seq<char>, StoredDocument<H>>,
    opened: H,
    counted: Result<i32, MupdfServerError>,
    outcome: Result<ImportDocumentResult, MupdfServerError>,
) -> bool {
    match counted {
        Ok(page_count) => outcome matches Ok(sent) && sent.page_count == page_count
            && after.contains_key(sent.document_id@) && after == before.insert(
            sent.document_id@,
            after[sent.document_id@],
        ) && after[sent.document_id@].document == opened && after[sent.document_id@].info.id@
            == sent.document_id@ && after[sent.document_id@].info.page_count == page_count,
        Err(e) => outcome == Err::<ImportDocumentResult, MupdfServerError>(e) && after == before,
    }
}

/// How the outcome of an import, and the store after it, follow from the
/// outcome of opening the source.
pub open spec fn import_outcome<H, C: FnOnce(&H) -> Result<i32, MupdfServerError>>(
    before: Map<Seq<char>, StoredDocument<H>>,
    after: Map<Seq<char>, StoredDocument<H>>,
    count_pages: C,
    unlocked: Result<H, MupdfServerError>,
    outcome: Result<ImportDocumentResult, MupdfServerError>,
) -> bool {
    match unlocked {
        Ok(opened) => exists|counted: Result<i32, MupdfServerError>| #[trigger]
            count_pages.ensures((&opened,), counted) && counted_outcome(
                before,
                after,
                opened,
                counted,
                outcome,
            ),
        Err(e) => outcome == Err::<ImportDocumentResult, MupdfServerError>(e) && after == before,
    }
}

/// Opens a document and keeps it open under a new identifier. The source
/// is resolved and the document unlocked as [`DocumentSource::open`] says;
/// then `count_pages` is asked, and the document is stored.
pub fn import_document<H, O, N, A, C>(
    store: &mut DocumentStore<H>,
    params: ImportDocumentParams,
    open_engine: O,
    needs_password: N,
    authenticate: A,
    count_pages: C,
) -> (outcome: Result<ImportDocumentResult, MupdfServerError>)
    where
        O: FnOnce(OpenRequest) -> Result<H, MupdfServerError>,
        N: FnOnce(&H) -> Result<bool, MupdfServerError>,
        A: FnOnce(H, &str) -> Result<(H, bool), MupdfServerError>,
        C: FnOnce(&H) -> Result<i32, MupdfServerError>,
    requires
        forall|request: OpenRequest|
            request_for(params.source) == Ok::<OpenRequestView, ErrorView>(
                request@,
            ) ==> #[trigger] open_engine.requires(
                (request,),
            ),
        forall|opened: &H| #[trigger] needs_password.requires((opened,)),
        forall|handle: H, given: &str|
            password_of(params.password, Some(given)) ==> #[trigger] authenticate.requires(
                (handle, given),
            ),
        forall|opened: &H| #[trigger] count_pages.requires((opened,)),
    ensures
        exists|given: Option<&str>, unlocked: Result<H, MupdfServerError>|
            password_of(params.password, given) && #[trigger] open_outcome(
                params.source,
                given,
                open_engine,
                needs_password,
                authenticate,
                unlocked,
            ) && import_outcome(old(store)@, final(store)@, count_pages, unlocked, outcome),
{
    let given: Option<&str> = match &params.password {
        Some(text) => Some(text.as_str()),
        None => None,
    };
    let unlocked = params.source.open(given, open_engine, needs_password, authenticate);
    let document = match unlocked {
        Ok(document) => document,
        Err(e) => {
            return Err(e);
        },
    };
    let page_count = match count_pages(&document) {
        Ok(page_count) => page_count,
        Err(e) => {
            return Err(e);
        },
    };
    let document_id = store.insert(document, page_count);
    Ok(ImportDocumentResult { document_id, page_count })
}

/// The arguments of `close_document`.
#[derive(Debug)]
pub struct CloseDocumentParams {
    pub document_id: String,
}

/// The confirmation that a session was closed.
#[derive(Debug)]
pub struct CloseDocumentResult {
    /// Always true.
    pub success: bool,
}

/// Closes a session and releases its document.
pub fn close_document<H>(store: &mut DocumentStore<H>, params: CloseDocumentParams) -> (outcome:
    Result<CloseDocumentResult, MupdfServerError>)
    ensures
        final(store)@ == old(store)@.remove(params.document_id@),
        match outcome {
            Ok(sent) => sent.success && close_of(old(store)@, params.document_id@) is Ok,
            Err(e) => close_of(old(store)@, params.document_id@) == Err::<(), ErrorView>(e@),
        },
{
    store.remove(params.document_id.as_str())?;
    Ok(CloseDocumentResult { success: true })
}

/// The arguments of `list_documents`: none.
#[derive(Debug)]
pub struct ListDocumentsParams {}

/// An open session as it is listed.
#[derive(Debug)]
pub struct DocumentListEntry {
    pub document_id: String,
    pub page_count: i32,
    /// The whole seconds since the session was opened.
    pub age_seconds: u64,
}

/// The open sessions.
#[derive(Debug)]
pub struct ListDocumentsResult {
    pub documents: Vec<DocumentListEntry>,
}

/// Whether `entries` lists every session in `sessions`, each once and
/// with its page count.
pub open spec fn lists_documents<H>(
    entries: Seq<DocumentListEntry>,
    sessions: Map<Seq<char>, StoredDocument<H>>,
) -> bool {
    &&& forall|k: int|
        0 <= k < entries.len() ==> sessions.contains_key(#[trigger] entries[k].document_id@)
            && sessions[entries[k].document_id@].info.page_count == entries[k].page_count
    &&& forall|id: Seq<char>|
        sessions.contains_key(id) ==> exists|k: int|
            0 <= k < entries.len() && #[trigger] entries[k].document_id@ == id
    &&& forall|a: int, b: int|
        0 <= a < b < entries.len() ==> #[trigger] entries[a].document_id@
            != #[trigger] entries[b].document_id@
}

/// Lists the open sessions with their page counts and ages.
pub fn list_documents<H>(store: &DocumentStore<H>, _params: ListDocumentsParams) -> (listing:
    ListDocumentsResult)
    ensures
        lists_documents(listing.documents@, store@),
{
    let infos = store.list();
    let mut documents: Vec<DocumentListEntry> = Vec::new();
    for info in it: infos
        invariant
            documents@.len() == it.index(),
            forall|k: int|
                0 <= k < documents@.len() ==> (#[trigger] documents@[k]).document_id
                    == it.seq()[k].id && documents@[k].page_count == it.seq()[k].page_count,
    {
        let age = instant_elapsed(&info.created_at);
        let age_seconds = duration_seconds(&age);
        documents.push(
            DocumentListEntry { document_id: info.id, page_count: info.page_count, age_seconds },
        );
    }
    proof {
        assert forall|k: int| 0 <= k < documents@.len() implies store@.contains_key(
            #[trigger] documents@[k].document_id@,
        ) && store@[documents@[k].document_id@].info.page_count == documents@[k].page_count by {
            assert(store@.contains_key(infos@[k].id@));
        }
        assert forall|id: Seq<char>| store@.contains_key(id) implies exists|k: int|
            0 <= k < documents@.len() && #[trigger] documents@[k].document_id@ == id by {
            let k = choose|k: int| 0 <= k < infos@.len() && #[trigger] infos@[k].id@ == id;
            assert(documents@[k].document_id@ == id);
        }
        assert forall|a: int, b: int|
            0 <= a < b < documents@.len() implies #[trigger] documents@[a].document_id@
            != #[trigger] documents@[b].document_id@ by {
            assert(infos@[a].id@ != infos@[b].id@);
        }
    }
    ListDocumentsResult { documents }
}

/// After an import, a look-up of the identifier that was returned finds
/// the session with the page count that the engine reported, and a
/// listing of the store names the identifier exactly once.
pub proof fn lemma_import_is_found<H>(
    before: Map<Seq<char>, StoredDocument<H>>,
    after: Map<Seq<char>, StoredDocument<H>>,
    opened: H,
    page_count: i32,
    sent: ImportDocumentResult,
    entries: Seq<DocumentListEntry>,
)
    requires
        counted_outcome(
            before,
            after,
            opened,
            Ok::<i32, MupdfServerError>(page_count),
            Ok::<ImportDocumentResult, MupdfServerError>(sent),
        ),
        lists_documents(entries, after),
    ensures
        sent.page_count == page_count,
        info_of(after, sent.document_id@) matches Ok(info) && info.page_count == page_count,
        exists|k: int|
            0 <= k < entries.len() && #[trigger] entries[k].document_id@ == sent.document_id@
                && entries[k].page_count == page_count && forall|j: int|
                0 <= j < entries.len() && j != k ==> #[trigger] entries[j].document_id@
                    != sent.document_id@,
{
    let id = sent.document_id@;
    let k = choose|k: int| 0 <= k < entries.len() && #[trigger] entries[k].document_id@ == id;
    assert forall|j: int|
        0 <= j < entries.len() && j != k implies #[trigger] entries[j].document_id@ != id by {
        if j < k {
            assert(entries[j].document_id@ != entries[k].document_id@);
        } else {
            assert(entries[k].document_id@ != entries[j].document_id@);
        }
    }
}

/// The identifiers that a listing names are exactly those of the open
/// sessions, whatever was imported and closed before.
pub proof fn lemma_listing_names_the_open_sessions<H>(
    entries: Seq<DocumentListEntry>,
    sessions: Map<Seq<char>, StoredDocument<H>>,
)
    requires
        lists_documents(entries, sessions),
    ensures
        entries.map_values(|entry: DocumentListEntry| entry.document_id@).to_set()
            == sessions.dom(),
{
    let ids = entries.map_values(|entry: DocumentListEntry| entry.document_id@);
    assert forall|id: Seq<char>| ids.to_set().contains(id) implies sessions.dom().contains(id) by {
        let k = choose|k: int| 0 <= k < ids.len() && ids[k] == id;
        assert(sessions.contains_key(entries[k].document_id@));
    }
    assert forall|id: Seq<char>| sessions.dom().contains(id) implies ids.to_set().contains(id) by {
        let k = choose|k: int| 0 <= k < entries.len() && #[trigger] entries[k].document_id@ == id;
        assert(ids[k] == id);
    }
    assert(ids.to_set() =~= sessions.dom());
}

} // verus!
