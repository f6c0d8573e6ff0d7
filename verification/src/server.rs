//! The server: the store of open documents behind the catalog of tools,
//! and the path of a call from its name and arguments to a response.

use crate::arguments::{faults_with, FaultView, ProtocolFault};
use crate::catalog::{stateful, tool_named, ToolName};
use crate::error::{describes, MupdfServerError};
use crate::json::Member;
use crate::request::{fault_in, read_arguments, request_in, ToolRequest};
use crate::state::{DocumentStore, StoredDocument};
use vstd::prelude::*;
use vstd::string::StringExecFns;

verus! {

/// What is sent back for a call that reached its tool.
#[derive(Debug)]
pub struct ToolResponse {
    /// Whether the tool failed.
    pub is_error: bool,
    /// The result of the tool as a text, or the description of its failure.
    pub text: String,
}

/// Whether `response` is what is sent for the outcome of a tool: a
/// result as it is; a failure as its description, marked as a failure of
/// the tool.
pub open spec fn responds(
    outcome: Result<String, MupdfServerError>,
    response: ToolResponse,
) -> bool {
    match outcome {
        Ok(body) => !response.is_error && response.text == body,
        Err(e) => response.is_error && describes(response.text@, e@),
    }
}

/// Shapes the outcome of a tool into a response: a result is sent as it
/// is; a failure is sent as its description and marked as a failure of
/// the tool. Either way the call itself has succeeded.
pub fn respond(outcome: Result<String, MupdfServerError>) -> (response: ToolResponse)
    ensures
        responds(outcome, response),
{
    match outcome {
        Ok(body) => ToolResponse { is_error: false, text: body },
        Err(e) => ToolResponse { is_error: true, text: e.message() },
    }
}

/// How the tools are meant to be used, as it is told to the caller.
pub open spec fn usage_instructions() -> Seq<char> {
    "MuPDF-based PDF processing server. TWO USAGE PATTERNS: 1. STATEFUL (for multiple operations on same document): import_document \u{2192} get document_id \u{2192} use document_id with other tools \u{2192} close_document. 2. ONESHOT (for single operation, no state management): Use tools prefixed with 'oneshot_' - they accept file path or base64 directly and handle everything in one call. Choose ONESHOT when you only need one operation. Choose STATEFUL when you need multiple operations on the same document."@
}

/// How the server presents itself.
#[derive(Debug)]
pub struct ServerInfo {
    /// The name of the server.
    pub name: &'static str,
    /// The name of the server as it is shown.
    pub title: &'static str,
    /// How the tools are meant to be used.
    pub instructions: &'static str,
}

/// How the server presents itself.
pub fn server_info() -> (info: ServerInfo)
    ensures
        info.name@ == "mupdf-mcp-server"@,
        info.title@ == "MuPDF MCP Server"@,
        info.instructions@ == usage_instructions(),
{
    ServerInfo {
        name: "mupdf-mcp-server",
        title: "MuPDF MCP Server",
        instructions: "MuPDF-based PDF processing server. TWO USAGE PATTERNS: 1. STATEFUL (for multiple operations on same document): import_document \u{2192} get document_id \u{2192} use document_id with other tools \u{2192} close_document. 2. ONESHOT (for single operation, no state management): Use tools prefixed with 'oneshot_' - they accept file path or base64 directly and handle everything in one call. Choose ONESHOT when you only need one operation. Choose STATEFUL when you need multiple operations on the same document.",
    }
}

/// The server: the store of open documents behind the catalog of tools.
pub struct MupdfServer<H> {
    store: DocumentStore<H>,
}

impl<H> Default for MupdfServer<H> {
    fn default() -> (server: Self)
        ensures
            server.sessions() == Map::<Seq<char>, StoredDocument<H>>::empty(),
    {
        Self::new()
    }
}

impl<H> MupdfServer<H> {
    /// A server without open documents.
    pub fn new() -> (server: Self)
        ensures
            server.sessions() == Map::<Seq<char>, StoredDocument<H>>::empty(),
    {
        MupdfServer { store: DocumentStore::new() }
    }

    /// The open sessions by identifier.
    pub closed spec fn sessions(self) -> Map<Seq<char>, StoredDocument<H>> {
        self.store@
    }

    /// The store, to read.
    pub fn store(&self) -> (store: &DocumentStore<H>)
        ensures
            store@ == self.sessions(),
    {
        &self.store
    }

    /// The store, for a tool that works on a session.
    pub fn store_mut(&mut self) -> (store: &mut DocumentStore<H>)
        ensures
            store@ == old(self).sessions(),
            final(self).sessions() == final(store)@,
    {
        &mut self.store
    }

    /// Handles a call. The call is read first; a name outside the catalog
    /// and arguments that do not fit the tool are faults of the request,
    /// and nothing runs. Otherwise the request is run and its outcome is
    /// shaped into a response: by `run_stateful`, with the store, for a
    /// tool that works on a session, and by `run_oneshot`, without it, for
    /// any other tool. A failure of the tool is a response, not a fault.
    pub fn call_tool<S, O>(
        &mut self,
        name: &str,
        members: &Vec<Member>,
        run_stateful: S,
        run_oneshot: O,
    ) -> (outcome: Result<ToolResponse, ProtocolFault>)
        where
            S: FnOnce(&mut DocumentStore<H>, ToolRequest) -> Result<String, MupdfServerError>,
            O: FnOnce(ToolRequest) -> Result<String, MupdfServerError>,
        requires
            forall|lent: &mut DocumentStore<H>, request: ToolRequest|
                lent@ == old(self).sessions() && stateful(request@.tool)
                    ==> #[trigger] run_stateful.requires((lent, request)),
            forall|request: ToolRequest|
                !stateful(request@.tool) ==> #[trigger] run_oneshot.requires((request,)),
        ensures
            match tool_named(name@) {
                None => final(self).sessions() == old(self).sessions() && faults_with(
                    outcome,
                    FaultView::UnknownTool(name@),
                ),
                Some(tool) => match fault_in(tool, members@) {
                    Some(fault) => final(self).sessions() == old(self).sessions()
                        && faults_with(outcome, fault),
                    None => outcome matches Ok(response) && if stateful(tool) {
                        exists|
                            lent: &mut DocumentStore<H>,
                            request: ToolRequest,
                            ran: Result<String, MupdfServerError>,
                        |
                            lent@ == old(self).sessions()
                                && final(lent)@ == final(self).sessions()
                                && request@ == request_in(tool, members@)
                                && #[trigger] run_stateful.ensures((lent, request), ran)
                                && responds(ran, response)
                    } else {
                        final(self).sessions() == old(self).sessions() && exists|
                            request: ToolRequest,
                            ran: Result<String, MupdfServerError>,
                        |
                            request@ == request_in(tool, members@)
                                && #[trigger] run_oneshot.ensures((request,), ran) && responds(
                                ran,
                                response,
                            )
                    },
                },
            },
    {
        let tool = match ToolName::from_name(name) {
            Some(tool) => tool,
            None => {
                return Err(ProtocolFault::UnknownTool(String::from_str(name)));
            },
        };
        let request = read_arguments(tool, members)?;
        let ran = if tool.is_stateful() {
            run_stateful(&mut self.store, request)
        } else {
            run_oneshot(request)
        };
        Ok(respond(ran))
    }
}

} // verus!
