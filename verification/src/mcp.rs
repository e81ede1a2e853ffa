//! The Model Context Protocol pieces that decide: matching a JSON-RPC reply
//! to its request, turning a tool-call result into the tool's output, and
//! the descriptions given for a remote tool.
use vstd::prelude::*;
use vstd::string::*;
use crate::api::opt_text_view;
use crate::json::{
    empty_json_object, json_member, json_parse, json_rendered, json_u64, member,
    parse_json_value, render, u64_value,
};
use crate::text::{concat, is_blank, is_blank_text};

verus! {

/// The standard I/O error type.
#[verifier::external_type_specification]
#[verifier::external_body]
pub struct ExIoError(std::io::Error);

/// The JSON (de)serialization error type of `serde_json`.
#[verifier::external_type_specification]
#[verifier::external_body]
pub struct ExJsonError(serde_json::Error);

/// The JSON value type of `serde_json`.
#[verifier::external_type_specification]
#[verifier::external_body]
pub struct ExJsonValue(serde_json::Value);

/// An error of an exchange with an MCP server.
#[derive(Debug)]
pub enum McpError {
    /// Reading from or writing to the server's pipes failed.
    Io(std::io::Error),
    /// A JSON value could not be serialized or deserialized.
    Serialization(serde_json::Error),
    /// The server broke the protocol (unexpected reply, closed stream, error status).
    Protocol(String),
}

/// The error is a protocol error with this text.
pub open spec fn is_protocol_error(e: McpError, text: Seq<char>) -> bool {
    e matches McpError::Protocol(t) && t@ == text
}

/// One content item of a tool's result (`type` is `content_type`).
#[derive(Debug)]
pub struct ToolContent {
    pub content_type: String,
    pub text: Option<String>,
}

/// The result of a `tools/call` request.
#[derive(Debug)]
pub struct CallToolResult {
    pub content: Vec<ToolContent>,
    pub is_error: bool,
}

/// The texts of the content items that have one, in order.
pub open spec fn content_texts(items: Seq<ToolContent>) -> Seq<Seq<char>>
    decreases items.len(),
{
    if items.len() == 0 {
        Seq::empty()
    } else {
        let earlier = content_texts(items.drop_last());
        match items.last().text {
            Some(t) => earlier.push(t@),
            None => earlier,
        }
    }
}

/// The parts joined with line feeds between them.
pub open spec fn join_lines(parts: Seq<Seq<char>>) -> Seq<char>
    decreases parts.len(),
{
    if parts.len() == 0 {
        Seq::empty()
    } else if parts.len() == 1 {
        parts[0]
    } else {
        join_lines(parts.drop_last()) + "\n"@ + parts.last()
    }
}

/// The text of the error status of a tool.
pub open spec fn tool_error_text() -> Seq<char> {
    "Tool returned error status"@
}

impl CallToolResult {
    /// The tool's output: an error if the tool reported one, otherwise the
    /// texts of its content items joined with line feeds (items without a
    /// text are skipped).
    pub fn output(&self) -> (r: Result<String, McpError>)
        ensures
            self.is_error ==> (r matches Err(e) && is_protocol_error(e, tool_error_text())),
            !self.is_error ==> (r matches Ok(text) && text@ == join_lines(
                content_texts(self.content@),
            )),
    {
        if self.is_error {
            return Err(McpError::Protocol(String::from_str("Tool returned error status")));
        }
        let mut out = String::new();
        let mut count: usize = 0;
        let mut i: usize = 0;
        while i < self.content.len()
            invariant
                i <= self.content@.len(),
                count == content_texts(self.content@.take(i as int)).len(),
                count <= i,
                out@ == join_lines(content_texts(self.content@.take(i as int))),
            decreases self.content@.len() - i,
        {
            proof {
                assert(self.content@.take(i + 1).drop_last() =~= self.content@.take(i as int));
            }
            match &self.content[i].text {
                Some(t) => {
                    let ghost parts = content_texts(self.content@.take(i as int)).push(t@);
                    if count > 0 {
                        out.append("\n");
                    } else {
                        assert(content_texts(self.content@.take(i as int)).len() == 0);
                        assert(Seq::<char>::empty() + t@ =~= t@);
                    }
                    out.append(t.as_str());
                    proof {
                        assert(parts.drop_last() =~= content_texts(self.content@.take(i as int)));
                    }
                    count = count + 1;
                },
                None => {},
            }
            i = i + 1;
        }
        proof {
            assert(self.content@.take(self.content@.len() as int) =~= self.content@);
        }
        Ok(out)
    }
}

/// What a line read from the server says, once decoded.
pub struct RpcReply {
    /// The `id` member, when it is an unsigned integer.
    pub id: Option<u64>,
    /// The `error` member, rendered as JSON text, when present.
    pub error: Option<String>,
    /// The `result` member, when present.
    pub result: Option<serde_json::Value>,
}

/// The `id` of a reply, when it is an unsigned integer.
pub open spec fn reply_id_of(v: serde_json::Value) -> Option<u64> {
    match json_member(v, "id"@) {
        Some(id) => json_u64(id),
        None => None,
    }
}

/// The `error` member of a reply, rendered as JSON text, when present.
pub open spec fn reply_error_of(v: serde_json::Value) -> Option<Seq<char>> {
    match json_member(v, "error"@) {
        Some(e) => Some(json_rendered(e)),
        None => None,
    }
}

/// Decodes a line read from the server: blank lines and lines that are not
/// JSON give nothing; otherwise its `id` (when an unsigned integer), its
/// `error` (rendered as JSON text) and its `result`.
pub fn decode_reply(line: &str) -> (r: Option<RpcReply>)
    ensures
        r is None <==> (is_blank_text(line@) || json_parse(line@) is None),
        r matches Some(reply) ==> (json_parse(line@) matches Some(v) && reply.id == reply_id_of(v)
            && opt_text_view(reply.error) == reply_error_of(v) && reply.result == json_member(
            v,
            "result"@,
        )),
{
    if is_blank(line) {
        return None;
    }
    let parsed = parse_json_value(line);
    match parsed {
        None => None,
        Some(v) => {
            let id = match member(&v, "id") {
                Some(i) => u64_value(&i),
                None => None,
            };
            let error = match member(&v, "error") {
                Some(e) => Some(render(&e)),
                None => None,
            };
            let result = member(&v, "result");
            Some(RpcReply { id, error, result })
        },
    }
}

/// How a decoded line relates to the request awaiting its reply.
pub enum ReplyMatch {
    /// The line answers another request, or is a notification: read on.
    Unrelated,
    /// The line answers the request: its `result` member (`None` when the
    /// reply has none, which the caller reads as JSON `null`), or its error.
    Answer(Result<Option<serde_json::Value>, McpError>),
}

/// Matches a decoded line against the request `expected_id`: a line with
/// another id (or none) is unrelated; the reply of the request is its error,
/// as a protocol error, or else its result, absent when it has none.
pub fn match_reply(expected_id: u64, reply: RpcReply) -> (m: ReplyMatch)
    ensures
        reply.id != Some(expected_id) ==> m is Unrelated,
        reply.id == Some(expected_id) ==> match reply.error {
            Some(e) => (m matches ReplyMatch::Answer(Err(err)) && is_protocol_error(err, e@)),
            None => (m matches ReplyMatch::Answer(Ok(result)) && result == reply.result),
        },
{
    let matches = match reply.id {
        Some(id) => id == expected_id,
        None => false,
    };
    if !matches {
        return ReplyMatch::Unrelated;
    }
    match reply.error {
        Some(e) => ReplyMatch::Answer(Err(McpError::Protocol(e))),
        None => ReplyMatch::Answer(Ok(reply.result)),
    }
}

/// The arguments handed to a tool: the parsed value, or an empty JSON object
/// when the model's arguments did not parse.
pub fn arguments_or_empty(parsed: Option<serde_json::Value>) -> (args: serde_json::Value)
    ensures
        parsed matches Some(v) ==> args == v,
        parsed is None ==> Some(args) == json_parse("{}"@),
{
    match parsed {
        Some(v) => v,
        None => empty_json_object(),
    }
}

/// The JSON arguments of a tool call, from the model's argument text: the
/// parsed text, or an empty JSON object when it does not parse.
pub fn tool_arguments(arguments: &str) -> (args: serde_json::Value)
    ensures
        json_parse(arguments@) matches Some(v) ==> args == v,
        json_parse(arguments@) is None ==> Some(args) == json_parse("{}"@),
{
    arguments_or_empty(parse_json_value(arguments))
}

/// The text of the error reported when the server's output ends before the reply.
pub open spec fn closed_stream_text() -> Seq<char> {
    "Process stream closed without response"@
}

/// The error reported when the server's output ends before the reply arrives.
pub fn closed_stream_error() -> (e: McpError)
    ensures
        is_protocol_error(e, closed_stream_text()),
{
    McpError::Protocol(String::from_str("Process stream closed without response"))
}

/// Description of a tool exposed by an MCP server (`tools/list`).
#[derive(Debug)]
pub struct McpToolInfo {
    /// The tool's unique name.
    pub name: String,
    /// The tool's description, when it has one.
    pub description: Option<String>,
    /// The JSON schema of the tool's input (`inputSchema`).
    pub input_schema: serde_json::Value,
}

/// The description shown to the model when the tool has none.
pub open spec fn default_tool_description() -> Seq<char> {
    "Lit le contenu d'un fichier"@
}

impl McpToolInfo {
    /// The description sent in a request's tool list: the tool's, or empty.
    pub fn payload_description(&self) -> (d: String)
        ensures
            d@ == match self.description {
                Some(t) => t@,
                None => Seq::empty(),
            },
    {
        match &self.description {
            Some(t) => t.clone(),
            None => String::new(),
        }
    }

    /// The description of the tool's definition: the tool's, or the default.
    pub fn definition_description(&self) -> (d: String)
        ensures
            d@ == match self.description {
                Some(t) => t@,
                None => default_tool_description(),
            },
    {
        match &self.description {
            Some(t) => t.clone(),
            None => String::from_str("Lit le contenu d'un fichier"),
        }
    }
}

/// The error of a remote tool run through the tool adapter.
#[derive(Debug)]
pub struct DynamicToolError(pub String);

impl DynamicToolError {
    /// The error's text: `MCP Tool Execution Error: ` and the detail.
    pub fn to_message(&self) -> (text: String)
        ensures
            text@ == "MCP Tool Execution Error: "@ + self.0@,
    {
        concat("MCP Tool Execution Error: ", self.0.as_str())
    }
}

} // verus!
