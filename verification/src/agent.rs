//! The multi-turn agentic loop with tool calling, as a state machine.
//!
//! The caller sends the requests, reads the replies and runs the tools; the
//! machine holds the conversation and decides, after each reply or tool
//! result, whether to call a tool, to send the next request or to stop.
use vstd::prelude::*;
use vstd::string::*;
use crate::api::{
    ChatCompletionResponse, ChatMessage, ChatMessageView, Choice, ToolCall, ToolCallView,
    copy_tool_calls, opt_text_view, tool_call_views,
};
use crate::sse::{StreamTurn, StreamTurnView, turn_message};
use crate::text::{chars_of, concat, is_blank, is_blank_text, utf8_len};

verus! {

/// The maximum number of requests of one agentic run.
pub const MAX_AGENT_ITERATIONS: u32 = 20;

/// The maximum number of bytes of a tool's output kept in a streamed run.
pub const MAX_TOOL_OUTPUT_BYTES: usize = 12000;

/// The last character of `s` is a slash.
pub open spec fn ends_with_slash(s: Seq<char>) -> bool {
    s.len() > 0 && s.last() == '/'
}

/// `s` without its trailing slashes (`trim_end_matches('/')`).
pub open spec fn without_trailing_slashes(s: Seq<char>) -> Seq<char>
    decreases s.len(),
{
    if ends_with_slash(s) {
        without_trailing_slashes(s.drop_last())
    } else {
        s
    }
}

/// The chat-completions URL of an API endpoint: the endpoint without its
/// trailing slashes, then `/chat/completions`.
pub fn completions_url(endpoint: &str) -> (url: String)
    ensures
        url@ == without_trailing_slashes(endpoint@) + "/chat/completions"@,
{
    let v = chars_of(endpoint);
    let mut j: usize = v.len();
    assert(endpoint@.take(j as int) =~= endpoint@);
    while j > 0 && v[j - 1] == '/'
        invariant
            j <= v.len(),
            v@ == endpoint@,
            without_trailing_slashes(endpoint@) == without_trailing_slashes(
                endpoint@.take(j as int),
            ),
        decreases j,
    {
        proof {
            assert(endpoint@.take(j as int).drop_last() =~= endpoint@.take(j - 1));
        }
        j = j - 1;
    }
    proof {
        assert(endpoint@.take(j as int) =~= endpoint@.subrange(0, j as int));
    }
    concat(endpoint.substring_char(0, j), "/chat/completions")
}

/// The tool fields of a chat-completions request.
pub struct RequestTools {
    /// The function list offered to the model, when there is one.
    pub tools: Option<Vec<serde_json::Value>>,
    /// `auto` when functions are offered, so that the model may call them.
    pub tool_choice: Option<String>,
}

/// The tool fields of every request of a run: the functions are offered, with
/// `tool_choice` set to `auto`, exactly when the list is not empty; otherwise
/// neither field is sent.
pub fn request_tools(tools: Vec<serde_json::Value>) -> (fields: RequestTools)
    ensures
        tools@.len() > 0 ==> (fields.tools matches Some(t) && t@ == tools@),
        tools@.len() > 0 ==> (fields.tool_choice matches Some(c) && c@ == "auto"@),
        tools@.len() == 0 ==> fields.tools is None && fields.tool_choice is None,
{
    if tools.len() > 0 {
        RequestTools { tools: Some(tools), tool_choice: Some(String::from_str("auto")) }
    } else {
        RequestTools { tools: None, tool_choice: None }
    }
}

/// The note appended to a tool output that was cut.
pub open spec fn truncation_note() -> Seq<char> {
    "\n\n[... Sortie tronquée car trop volumineuse. Spécifiez un sous-dossier précis ou utilisez search_files / list_directory pour explorer pas à pas ...]"@
}

/// A tool output can be cut at the byte limit: it is within the limit, or
/// the limit falls on a character boundary (elsewhere cutting it panics).
pub open spec fn tool_output_fits(text: Seq<char>) -> bool {
    utf8_len(text) <= MAX_TOOL_OUTPUT_BYTES || vstd::utf8::is_char_boundary(
        vstd::utf8::encode_utf8(text),
        MAX_TOOL_OUTPUT_BYTES as int,
    )
}

/// A tool output as a streamed run keeps it: beyond the byte limit it is cut
/// there and the truncation note is appended.
pub open spec fn truncated_tool_output(text: Seq<char>) -> Seq<char> {
    if utf8_len(text) > MAX_TOOL_OUTPUT_BYTES {
        vstd::utf8::decode_utf8(vstd::utf8::encode_utf8(text).take(MAX_TOOL_OUTPUT_BYTES as int))
            + truncation_note()
    } else {
        text
    }
}

/// Whether a tool output can be cut at the byte limit.
pub fn tool_output_can_be_cut(text: &str) -> (b: bool)
    ensures
        b == tool_output_fits(text@),
{
    let byte_len = text.as_bytes().len();
    byte_len <= MAX_TOOL_OUTPUT_BYTES || text.is_char_boundary(MAX_TOOL_OUTPUT_BYTES)
}

/// Cuts a tool output to the byte limit and appends the truncation note when
/// it is longer; shorter outputs are kept whole.
pub fn truncate_tool_output(text: String) -> (kept: String)
    requires
        tool_output_fits(text@),
    ensures
        kept@ == truncated_tool_output(text@),
{
    let byte_len = text.as_str().as_bytes().len();
    if byte_len > MAX_TOOL_OUTPUT_BYTES {
        let (head, _) = text.as_str().split_at(MAX_TOOL_OUTPUT_BYTES);
        proof {
            vstd::utf8::encode_utf8_decode_utf8(head@);
            assert(vstd::utf8::encode_utf8(text@).take(MAX_TOOL_OUTPUT_BYTES as int)
                =~= vstd::utf8::encode_utf8(text@).subrange(0, MAX_TOOL_OUTPUT_BYTES as int));
        }
        let mut kept = String::from_str(head);
        kept.append("\n\n[... Sortie tronquée car trop volumineuse. Spécifiez un sous-dossier précis ou utilisez search_files / list_directory pour explorer pas à pas ...]");
        kept
    } else {
        text
    }
}

/// The two kinds of agentic run.
#[derive(Clone, Copy, Debug, PartialEq, Eq, Structural)]
pub enum AgentMode {
    /// Each reply is read whole.
    Plain,
    /// Each reply is streamed; tool outputs are cut and tool calls announced.
    Streaming,
}

/// Why a request of the run failed.
pub enum AgentFailure {
    /// The request could not be sent; the transport error's text.
    Transport(String),
    /// The server answered with an error status: the status, and the body
    /// when it could be read.
    Status { status: String, body: Option<String> },
    /// The reply could not be decoded; the decoder's error text.
    Decode(String),
    /// The reply stream failed; the stream error's text.
    Stream(String),
}

/// `AgentFailure` over character sequences.
pub enum AgentFailureView {
    Transport(Seq<char>),
    Status { status: Seq<char>, body: Option<Seq<char>> },
    Decode(Seq<char>),
    Stream(Seq<char>),
}

impl View for AgentFailure {
    type V = AgentFailureView;

    open spec fn view(&self) -> AgentFailureView {
        match self {
            AgentFailure::Transport(d) => AgentFailureView::Transport(d@),
            AgentFailure::Status { status, body } => AgentFailureView::Status {
                status: status@,
                body: opt_text_view(*body),
            },
            AgentFailure::Decode(d) => AgentFailureView::Decode(d@),
            AgentFailure::Stream(d) => AgentFailureView::Stream(d@),
        }
    }
}

/// What happened since the last action of the run.
pub enum AgentEvent {
    /// A plain reply arrived, decoded.
    Answered(ChatCompletionResponse),
    /// A streamed reply ended; the assembled turn.
    Streamed(StreamTurn),
    /// The tool ran: its output, or its error's text.
    ToolResult(Result<String, String>),
    /// The request failed.
    Failed(AgentFailure),
}

/// `AgentEvent` over character sequences.
pub enum AgentEventView {
    Answered(Seq<ChatMessageView>),
    Streamed(StreamTurnView),
    ToolResult(Result<Seq<char>, Seq<char>>),
    Failed(AgentFailureView),
}

/// The messages of the choices of a reply.
pub open spec fn choice_messages(choices: Seq<Choice>) -> Seq<ChatMessageView> {
    choices.map_values(|c: Choice| c.message@)
}

impl View for AgentEvent {
    type V = AgentEventView;

    open spec fn view(&self) -> AgentEventView {
        match self {
            AgentEvent::Answered(r) => AgentEventView::Answered(choice_messages(r.choices@)),
            AgentEvent::Streamed(t) => AgentEventView::Streamed(t@),
            AgentEvent::ToolResult(Ok(t)) => AgentEventView::ToolResult(Ok(t@)),
            AgentEvent::ToolResult(Err(e)) => AgentEventView::ToolResult(Err(e@)),
            AgentEvent::Failed(f) => AgentEventView::Failed(f@),
        }
    }
}

/// What the caller does next.
pub enum AgentAction {
    /// Send the next request with the conversation's messages.
    SendRequest,
    /// Show the notice, if any, then run the tool `name` with the JSON
    /// `arguments` and report its result.
    CallTool { name: String, arguments: String, notice: Option<String> },
    /// Stop with this result.
    Finish(Result<String, String>),
}

/// `AgentAction` over character sequences.
pub enum AgentActionView {
    SendRequest,
    CallTool { name: Seq<char>, arguments: Seq<char>, notice: Option<Seq<char>> },
    Finish(Result<Seq<char>, Seq<char>>),
}

impl View for AgentAction {
    type V = AgentActionView;

    open spec fn view(&self) -> AgentActionView {
        match self {
            AgentAction::SendRequest => AgentActionView::SendRequest,
            AgentAction::CallTool { name, arguments, notice } => AgentActionView::CallTool {
                name: name@,
                arguments: arguments@,
                notice: opt_text_view(*notice),
            },
            AgentAction::Finish(Ok(t)) => AgentActionView::Finish(Ok(t@)),
            AgentAction::Finish(Err(e)) => AgentActionView::Finish(Err(e@)),
        }
    }
}

/// Where the run stands.
#[derive(Clone, Copy, Debug, PartialEq, Eq, Structural)]
pub enum AgentPhase {
    /// A request is out; its reply is awaited.
    AwaitingReply,
    /// A tool is running; its result is awaited.
    AwaitingToolResult,
    /// The run has ended.
    Finished,
}

/// The state of an agentic run.
pub struct AgentLoop {
    mode: AgentMode,
    messages: Vec<ChatMessage>,
    iteration: u32,
    pending: Vec<ToolCall>,
    next_call: usize,
    phase: AgentPhase,
}

/// `AgentLoop` over character sequences.
pub struct AgentLoopView {
    pub mode: AgentMode,
    /// The conversation sent with each request.
    pub messages: Seq<ChatMessageView>,
    /// The current request (0-based).
    pub iteration: nat,
    /// The tool calls of the last reply.
    pub pending: Seq<ToolCallView>,
    /// The tool call whose result is awaited.
    pub next_call: nat,
    pub phase: AgentPhase,
}

impl View for AgentLoop {
    type V = AgentLoopView;

    closed spec fn view(&self) -> AgentLoopView {
        AgentLoopView {
            mode: self.mode,
            messages: self.messages@.map_values(|m: ChatMessage| m@),
            iteration: self.iteration as nat,
            pending: tool_call_views(self.pending@),
            next_call: self.next_call as nat,
            phase: self.phase,
        }
    }
}

/// A message with a role and a text.
pub open spec fn text_message(role: Seq<char>, content: Seq<char>) -> ChatMessageView {
    ChatMessageView { role, content: Some(content), tool_calls: None, tool_call_id: None }
}

/// The message that reports a tool's output for the call `id`.
pub open spec fn tool_message(id: Seq<char>, output: Seq<char>) -> ChatMessageView {
    ChatMessageView {
        role: "tool"@,
        content: Some(output),
        tool_calls: None,
        tool_call_id: Some(id),
    }
}

/// The start of a run: the system prompt and the user prompt, first request.
pub open spec fn initial_run(mode: AgentMode, system: Seq<char>, user: Seq<char>) -> AgentLoopView {
    AgentLoopView {
        mode,
        messages: seq![text_message("system"@, system), text_message("user"@, user)],
        iteration: 0,
        pending: Seq::empty(),
        next_call: 0,
        phase: AgentPhase::AwaitingReply,
    }
}

/// The text of a failed request.
pub open spec fn failure_text(mode: AgentMode, f: AgentFailureView) -> Seq<char> {
    match (mode, f) {
        (AgentMode::Plain, AgentFailureView::Transport(d)) => "Erreur réseau: "@ + d,
        (AgentMode::Streaming, AgentFailureView::Transport(d)) => "Erreur réseau (connexion impossible) : "@ + d,
        (AgentMode::Plain, AgentFailureView::Status { status, body }) => "Erreur API: "@ + match body {
            Some(b) => b,
            None => Seq::empty(),
        },
        (AgentMode::Streaming, AgentFailureView::Status { status, body }) => "HTTP "@ + status
            + " : "@ + match body {
            Some(b) => b,
            None => "Impossible de lire le corps de l'erreur"@,
        },
        (_, AgentFailureView::Decode(d)) => "Erreur parsing JSON: "@ + d,
        (_, AgentFailureView::Stream(d)) => d,
    }
}

/// The text of a run that used all its requests without an answer.
pub open spec fn exhausted_text(mode: AgentMode) -> Seq<char> {
    match mode {
        AgentMode::Plain => "Nombre maximum d'itérations atteint sans réponse"@,
        AgentMode::Streaming => "Nombre maximum d'itérations atteint"@,
    }
}

/// The text of a plain reply without any choice.
pub open spec fn empty_reply_text() -> Seq<char> {
    "Réponse API vide"@
}

/// The notice shown before a tool runs in a streamed run.
pub open spec fn tool_notice(mode: AgentMode, name: Seq<char>) -> Option<Seq<char>> {
    match mode {
        AgentMode::Plain => None,
        AgentMode::Streaming => Some("\n\n⚙️ Execution de `"@ + name + "`...\n\n"@),
    }
}

/// The action that runs a tool call.
pub open spec fn call_action(mode: AgentMode, call: ToolCallView) -> AgentActionView {
    AgentActionView::CallTool {
        name: call.function.name,
        arguments: call.function.arguments,
        notice: tool_notice(mode, call.function.name),
    }
}

/// The text reported for a tool's result, before any cut.
pub open spec fn tool_result_text(r: Result<Seq<char>, Seq<char>>) -> Seq<char> {
    match r {
        Ok(t) => t,
        Err(e) => "Erreur MCP: "@ + e,
    }
}

/// The text recorded in the conversation for a tool's result.
pub open spec fn recorded_tool_output(mode: AgentMode, r: Result<Seq<char>, Seq<char>>) -> Seq<
    char,
> {
    match mode {
        AgentMode::Plain => tool_result_text(r),
        AgentMode::Streaming => truncated_tool_output(tool_result_text(r)),
    }
}

/// The end of a request's turn without an answer: the next request, or the
/// end of the run when all requests are used.
pub open spec fn end_turn(s: AgentLoopView) -> (AgentLoopView, AgentActionView) {
    if s.iteration + 1 < MAX_AGENT_ITERATIONS {
        (
            AgentLoopView { iteration: s.iteration + 1, phase: AgentPhase::AwaitingReply, ..s },
            AgentActionView::SendRequest,
        )
    } else {
        (
            AgentLoopView { phase: AgentPhase::Finished, ..s },
            AgentActionView::Finish(Err(exhausted_text(s.mode))),
        )
    }
}

/// What an assistant message leads to: tool calls are recorded with the
/// message and run in order; otherwise a non-blank text is the answer;
/// otherwise the turn ends.
pub open spec fn on_assistant_message(s: AgentLoopView, m: ChatMessageView) -> (
    AgentLoopView,
    AgentActionView,
) {
    if m.tool_calls is Some && m.tool_calls->0.len() > 0 {
        let calls = m.tool_calls->0;
        (
            AgentLoopView {
                messages: s.messages.push(m),
                pending: calls,
                next_call: 0,
                phase: AgentPhase::AwaitingToolResult,
                ..s
            },
            call_action(s.mode, calls[0]),
        )
    } else if m.content is Some && !is_blank_text(m.content->0) {
        (AgentLoopView { phase: AgentPhase::Finished, ..s }, AgentActionView::Finish(Ok(m.content->0)))
    } else {
        end_turn(s)
    }
}

/// The events that the run accepts in its current state.
pub open spec fn agent_accepts(s: AgentLoopView, e: AgentEventView) -> bool {
    match s.phase {
        AgentPhase::AwaitingReply => match e {
            AgentEventView::Answered(_) => s.mode == AgentMode::Plain,
            AgentEventView::Streamed(_) => s.mode == AgentMode::Streaming,
            AgentEventView::Failed(_) => true,
            AgentEventView::ToolResult(_) => false,
        },
        AgentPhase::AwaitingToolResult => match e {
            AgentEventView::ToolResult(r) => s.mode == AgentMode::Streaming ==> tool_output_fits(
                tool_result_text(r),
            ),
            _ => false,
        },
        AgentPhase::Finished => false,
    }
}

/// The policy of the agentic run: the next state and action after an event.
pub open spec fn agent_policy(s: AgentLoopView, e: AgentEventView) -> (
    AgentLoopView,
    AgentActionView,
) {
    match e {
        AgentEventView::Failed(f) => (
            AgentLoopView { phase: AgentPhase::Finished, ..s },
            AgentActionView::Finish(Err(failure_text(s.mode, f))),
        ),
        AgentEventView::Answered(messages) => if messages.len() == 0 {
            (
                AgentLoopView { phase: AgentPhase::Finished, ..s },
                AgentActionView::Finish(Err(empty_reply_text())),
            )
        } else {
            on_assistant_message(s, messages[0])
        },
        AgentEventView::Streamed(turn) => on_assistant_message(s, turn_message(turn)),
        AgentEventView::ToolResult(r) => {
            let call = s.pending[s.next_call as int];
            let recorded = AgentLoopView {
                messages: s.messages.push(tool_message(call.id, recorded_tool_output(s.mode, r))),
                next_call: s.next_call + 1,
                ..s
            };
            if s.next_call + 1 < s.pending.len() {
                (recorded, call_action(s.mode, s.pending[(s.next_call + 1) as int]))
            } else {
                end_turn(recorded)
            }
        },
    }
}

/// The run's invariant: a live run is within its request budget and, while
/// a tool runs, the awaited call exists.
pub open spec fn agent_wf(s: AgentLoopView) -> bool {
    &&& s.iteration < MAX_AGENT_ITERATIONS
    &&& s.phase == AgentPhase::AwaitingToolResult ==> s.next_call < s.pending.len()
}

/// A message with a role and a text.
fn make_text_message(role: &str, content: &str) -> (m: ChatMessage)
    ensures
        m@ == text_message(role@, content@),
{
    ChatMessage {
        role: String::from_str(role),
        content: Some(String::from_str(content)),
        tool_calls: None,
        tool_call_id: None,
    }
}

/// The text of a tool's result, before any cut.
fn build_tool_result_text(r: &Result<String, String>) -> (text: String)
    ensures
        text@ == tool_result_text(match r {
            Ok(t) => Ok(t@),
            Err(e) => Err(e@),
        }),
{
    match r {
        Ok(t) => t.clone(),
        Err(e) => concat("Erreur MCP: ", e.as_str()),
    }
}

/// The text of a failed request.
fn build_failure_text(mode: AgentMode, f: &AgentFailure) -> (text: String)
    ensures
        text@ == failure_text(mode, f@),
{
    match (mode, f) {
        (AgentMode::Plain, AgentFailure::Transport(d)) => concat("Erreur réseau: ", d.as_str()),
        (AgentMode::Streaming, AgentFailure::Transport(d)) => concat(
            "Erreur réseau (connexion impossible) : ",
            d.as_str(),
        ),
        (AgentMode::Plain, AgentFailure::Status { status, body }) => {
            let mut text = String::from_str("Erreur API: ");
            match body {
                Some(b) => text.append(b.as_str()),
                None => {
                    assert(text@ + Seq::<char>::empty() =~= text@);
                },
            }
            text
        },
        (AgentMode::Streaming, AgentFailure::Status { status, body }) => {
            let mut text = String::from_str("HTTP ");
            text.append(status.as_str());
            text.append(" : ");
            match body {
                Some(b) => text.append(b.as_str()),
                None => text.append("Impossible de lire le corps de l'erreur"),
            }
            text
        },
        (_, AgentFailure::Decode(d)) => concat("Erreur parsing JSON: ", d.as_str()),
        (_, AgentFailure::Stream(d)) => d.clone(),
    }
}

impl AgentLoop {
    /// The run's invariant.
    pub open spec fn wf(&self) -> bool {
        agent_wf(self@)
    }

    /// Starts a run with the system prompt and the user prompt; the first
    /// action is to send the first request.
    pub fn new(mode: AgentMode, system_prompt: &str, user_prompt: &str) -> (r: (
        AgentLoop,
        AgentAction,
    ))
        ensures
            r.0.wf(),
            r.0@ == initial_run(mode, system_prompt@, user_prompt@),
            r.1 is SendRequest,
    {
        let mut messages: Vec<ChatMessage> = Vec::new();
        messages.push(make_text_message("system", system_prompt));
        messages.push(make_text_message("user", user_prompt));
        let run = AgentLoop {
            mode,
            messages,
            iteration: 0,
            pending: Vec::new(),
            next_call: 0,
            phase: AgentPhase::AwaitingReply,
        };
        proof {
            assert(run@.messages =~= initial_run(mode, system_prompt@, user_prompt@).messages);
            assert(run@.pending =~= Seq::<ToolCallView>::empty());
        }
        (run, AgentAction::SendRequest)
    }

    /// The conversation to send with the next request.
    pub fn messages(&self) -> (messages: &Vec<ChatMessage>)
        ensures
            messages@.map_values(|m: ChatMessage| m@) == self@.messages,
    {
        &self.messages
    }

    /// The kind of run.
    pub fn mode(&self) -> (mode: AgentMode)
        ensures
            mode == self@.mode,
    {
        self.mode
    }

    /// The current request (0-based).
    pub fn iteration(&self) -> (i: u32)
        ensures
            i == self@.iteration,
    {
        self.iteration
    }

    /// Whether the run accepts this tool result: in a streamed run the output
    /// must be cuttable at the byte limit (cutting it elsewhere panics).
    pub fn accepts_tool_result(&self, r: &Result<String, String>) -> (b: bool)
        ensures
            b == (self@.mode == AgentMode::Streaming ==> tool_output_fits(
                tool_result_text(match r {
                    Ok(t) => Ok(t@),
                    Err(e) => Err(e@),
                }),
            )),
    {
        match self.mode {
            AgentMode::Plain => true,
            AgentMode::Streaming => {
                let text = build_tool_result_text(r);
                tool_output_can_be_cut(text.as_str())
            },
        }
    }

    fn end_turn(&mut self) -> (action: AgentAction)
        requires
            old(self).iteration < MAX_AGENT_ITERATIONS,
        ensures
            (final(self)@, action@) == end_turn(old(self)@),
            final(self).iteration < MAX_AGENT_ITERATIONS,
    {
        if self.iteration + 1 < MAX_AGENT_ITERATIONS {
            self.iteration = self.iteration + 1;
            self.phase = AgentPhase::AwaitingReply;
            AgentAction::SendRequest
        } else {
            self.phase = AgentPhase::Finished;
            let text = match self.mode {
                AgentMode::Plain => String::from_str("Nombre maximum d'itérations atteint sans réponse"),
                AgentMode::Streaming => String::from_str("Nombre maximum d'itérations atteint"),
            };
            AgentAction::Finish(Err(text))
        }
    }

    fn call_action(&self, i: usize) -> (action: AgentAction)
        requires
            i < self.pending@.len(),
        ensures
            action@ == call_action(self@.mode, self@.pending[i as int]),
    {
        let call = &self.pending[i];
        let notice = match self.mode {
            AgentMode::Plain => None,
            AgentMode::Streaming => {
                let mut n = String::from_str("\n\n⚙️ Execution de `");
                n.append(call.function.name.as_str());
                n.append("`...\n\n");
                Some(n)
            },
        };
        AgentAction::CallTool {
            name: call.function.name.clone(),
            arguments: call.function.arguments.clone(),
            notice,
        }
    }

    fn on_assistant_message(&mut self, m: ChatMessage) -> (action: AgentAction)
        requires
            agent_wf(old(self)@),
        ensures
            (final(self)@, action@) == on_assistant_message(old(self)@, m@),
            agent_wf(final(self)@),
    {
        let calls_present = match &m.tool_calls {
            Some(calls) => calls.len() > 0,
            None => false,
        };
        if calls_present {
            let calls = match &m.tool_calls {
                Some(calls) => copy_tool_calls(calls),
                None => Vec::new(),
            };
            let ghost before = self.messages@;
            let ghost mv = m@;
            self.messages.push(m);
            self.pending = calls;
            self.next_call = 0;
            self.phase = AgentPhase::AwaitingToolResult;
            proof {
                assert(tool_call_views(self.pending@).len() == self.pending@.len());
                assert(self.messages@.map_values(|x: ChatMessage| x@) =~= before.map_values(
                    |x: ChatMessage| x@,
                ).push(mv));
            }
            return self.call_action(0);
        }
        let answer = match &m.content {
            Some(c) => if !is_blank(c.as_str()) {
                Some(c.clone())
            } else {
                None
            },
            None => None,
        };
        match answer {
            Some(text) => {
                self.phase = AgentPhase::Finished;
                AgentAction::Finish(Ok(text))
            },
            None => self.end_turn(),
        }
    }

    /// Advances the run by one event and says what to do next. A failed
    /// request ends the run with its error text; a reply without choices ends
    /// it with `Réponse API vide`; an assistant message with tool calls is
    /// recorded and its calls are run in order (announced in a streamed run);
    /// otherwise its non-blank text is the answer; otherwise the next request
    /// follows, until all requests are used. Each tool result is recorded as
    /// a `tool` message for its call (cut to the byte limit in a streamed run).
    pub fn step(&mut self, event: AgentEvent) -> (action: AgentAction)
        requires
            old(self).wf(),
            agent_accepts(old(self)@, event@),
        ensures
            final(self).wf(),
            (final(self)@, action@) == agent_policy(old(self)@, event@),
    {
        match event {
            AgentEvent::Failed(f) => {
                self.phase = AgentPhase::Finished;
                AgentAction::Finish(Err(build_failure_text(self.mode, &f)))
            },
            AgentEvent::Answered(response) => {
                let mut choices = response.choices;
                if choices.len() == 0 {
                    self.phase = AgentPhase::Finished;
                    return AgentAction::Finish(Err(String::from_str("Réponse API vide")));
                }
                let first = choices.remove(0);
                self.on_assistant_message(first.message)
            },
            AgentEvent::Streamed(turn) => {
                let m = turn.assistant_message();
                self.on_assistant_message(m)
            },
            AgentEvent::ToolResult(r) => {
                let raw = build_tool_result_text(&r);
                let output = match self.mode {
                    AgentMode::Plain => raw,
                    AgentMode::Streaming => truncate_tool_output(raw),
                };
                let i = self.next_call;
                assert(tool_call_views(self.pending@).len() == self.pending@.len());
                assert(i < self.pending.len());
                let message = ChatMessage {
                    role: String::from_str("tool"),
                    content: Some(output),
                    tool_calls: None,
                    tool_call_id: Some(self.pending[i].id.clone()),
                };
                let ghost before = self.messages@;
                let ghost mv = message@;
                self.messages.push(message);
                self.next_call = i + 1;
                proof {
                    assert(self.messages@.map_values(|x: ChatMessage| x@) =~= before.map_values(
                        |x: ChatMessage| x@,
                    ).push(mv));
                }
                if i + 1 < self.pending.len() {
                    self.call_action(i + 1)
                } else {
                    self.end_turn()
                }
            },
        }
    }
}

/// A run sends at most `MAX_AGENT_ITERATIONS` requests: the request count
/// stays below the budget, it grows by one only when a request is sent, and
/// the last turn without an answer ends the run.
pub proof fn lemma_agent_request_budget(s: AgentLoopView, e: AgentEventView)
    requires
        agent_wf(s),
        agent_accepts(s, e),
    ensures
        agent_wf(agent_policy(s, e).0),
        agent_policy(s, e).0.iteration == s.iteration || (agent_policy(s, e).0.iteration
            == s.iteration + 1 && agent_policy(s, e).1 is SendRequest),
        agent_policy(s, e).1 is SendRequest ==> agent_policy(s, e).0.iteration
            < MAX_AGENT_ITERATIONS,
{
}

/// Every tool result is recorded, as a `tool` message answering the awaited
/// call, at the end of the conversation; the conversation only grows.
pub proof fn lemma_tool_result_answers_its_call(s: AgentLoopView, r: Result<Seq<char>, Seq<char>>)
    requires
        agent_wf(s),
        agent_accepts(s, AgentEventView::ToolResult(r)),
    ensures
        ({
            let next = agent_policy(s, AgentEventView::ToolResult(r)).0;
            &&& next.messages.len() == s.messages.len() + 1
            &&& next.messages.take(s.messages.len() as int) == s.messages
            &&& next.messages.last().role == "tool"@
            &&& next.messages.last().tool_call_id == Some(s.pending[s.next_call as int].id)
        }),
{
    let next = agent_policy(s, AgentEventView::ToolResult(r)).0;
    assert(next.messages.take(s.messages.len() as int) =~= s.messages);
}

/// The assistant message asks for tool calls.
pub open spec fn asks_for_tools(m: ChatMessageView) -> bool {
    m.tool_calls is Some && m.tool_calls->0.len() > 0
}

/// The messages answer the calls one by one, in order: each is a `tool`
/// message with an output, answering the call of the same rank.
pub open spec fn answers_calls(answers: Seq<ChatMessageView>, calls: Seq<ToolCallView>) -> bool {
    &&& answers.len() == calls.len()
    &&& forall|j: int|
        0 <= j < answers.len() ==> {
            &&& (#[trigger] answers[j]).role == "tool"@
            &&& answers[j].content is Some
            &&& answers[j].tool_calls is None
            &&& answers[j].tool_call_id == Some(calls[j].id)
        }
}

/// The messages are whole tool-call rounds: each an assistant message asking
/// for calls, followed by one answer per call, in order.
pub open spec fn complete_rounds(rest: Seq<ChatMessageView>) -> bool
    decreases rest.len(),
{
    if rest.len() == 0 {
        true
    } else if asks_for_tools(rest[0]) {
        let k = rest[0].tool_calls->0.len() as int;
        &&& rest.len() >= 1 + k
        &&& answers_calls(rest.subrange(1, 1 + k), rest[0].tool_calls->0)
        &&& complete_rounds(rest.skip(1 + k))
    } else {
        false
    }
}

/// The conversation of a run: the system prompt, the user prompt, then whole
/// tool-call rounds; while a tool runs, the last round holds the answers of
/// the calls already run.
pub open spec fn conversation_shape(s: AgentLoopView, system: Seq<char>, user: Seq<char>) -> bool {
    &&& s.messages.len() >= 2
    &&& s.messages[0] == text_message("system"@, system)
    &&& s.messages[1] == text_message("user"@, user)
    &&& if s.phase == AgentPhase::AwaitingToolResult {
        let k = s.messages.len() - 1 - s.next_call;
        &&& 2 <= k
        &&& complete_rounds(s.messages.subrange(2, k))
        &&& s.messages[k].tool_calls == Some(s.pending)
        &&& s.pending.len() > 0
        &&& answers_calls(s.messages.subrange(k + 1, s.messages.len() as int), s.pending.take(
            s.next_call as int,
        ))
    } else {
        complete_rounds(s.messages.skip(2))
    }
}

/// Whole rounds followed by whole rounds are whole rounds.
proof fn lemma_rounds_append(a: Seq<ChatMessageView>, b: Seq<ChatMessageView>)
    requires
        complete_rounds(a),
        complete_rounds(b),
    ensures
        complete_rounds(a + b),
    decreases a.len(),
{
    if a.len() == 0 {
        assert(a + b =~= b);
    } else {
        let k = a[0].tool_calls->0.len() as int;
        let ab = a + b;
        assert(ab[0] == a[0]);
        assert(ab.subrange(1, 1 + k) =~= a.subrange(1, 1 + k));
        assert(ab.skip(1 + k) =~= a.skip(1 + k) + b);
        lemma_rounds_append(a.skip(1 + k), b);
    }
}

/// One step of a run keeps the shape of its conversation.
pub proof fn lemma_agent_step_keeps_shape(
    s: AgentLoopView,
    e: AgentEventView,
    system: Seq<char>,
    user: Seq<char>,
)
    requires
        agent_wf(s),
        agent_accepts(s, e),
        conversation_shape(s, system, user),
    ensures
        conversation_shape(agent_policy(s, e).0, system, user),
{
    let next = agent_policy(s, e).0;
    match e {
        AgentEventView::ToolResult(r) => {
            let k = s.messages.len() - 1 - s.next_call;
            let call = s.pending[s.next_call as int];
            let answer = tool_message(call.id, recorded_tool_output(s.mode, r));
            let msgs = s.messages.push(answer);
            assert(msgs.subrange(2, k) =~= s.messages.subrange(2, k));
            assert(msgs[k] == s.messages[k]);
            let answers = msgs.subrange(k + 1, msgs.len() as int);
            assert(answers =~= s.messages.subrange(k + 1, s.messages.len() as int).push(answer));
            assert(answers_calls(answers, s.pending.take(s.next_call + 1int))) by {
                let old_answers = s.messages.subrange(k + 1, s.messages.len() as int);
                assert forall|j: int| 0 <= j < answers.len() implies {
                    &&& (#[trigger] answers[j]).role == "tool"@
                    &&& answers[j].content is Some
                    &&& answers[j].tool_calls is None
                    &&& answers[j].tool_call_id == Some(s.pending.take(s.next_call + 1int)[j].id)
                } by {
                    if j < old_answers.len() {
                        assert(answers[j] == old_answers[j]);
                        assert(s.pending.take(s.next_call as int)[j] == s.pending[j]);
                    }
                }
            }
            if s.next_call + 1 >= s.pending.len() {
                let round = msgs.subrange(k, msgs.len() as int);
                assert(round[0] == s.messages[k]);
                assert(round.subrange(1, 1 + s.pending.len() as int) =~= answers);
                assert(s.pending.take(s.next_call + 1int) =~= s.pending);
                assert(round.skip(1 + s.pending.len() as int) =~= Seq::<ChatMessageView>::empty());
                assert(asks_for_tools(round[0]));
                assert(round.len() == 1 + s.pending.len());
                assert(answers_calls(round.subrange(1, 1 + s.pending.len() as int), s.pending));
                assert(complete_rounds(round.skip(1 + s.pending.len() as int)));
                assert(complete_rounds(round));
                lemma_rounds_append(s.messages.subrange(2, k), round);
                assert(msgs.skip(2) =~= s.messages.subrange(2, k) + round);
            }
        },
        AgentEventView::Answered(messages) => {
            if messages.len() > 0 {
                lemma_assistant_keeps_shape(s, messages[0], system, user);
            }
        },
        AgentEventView::Streamed(turn) => {
            lemma_assistant_keeps_shape(s, turn_message(turn), system, user);
        },
        AgentEventView::Failed(_) => {},
    }
}

proof fn lemma_assistant_keeps_shape(
    s: AgentLoopView,
    m: ChatMessageView,
    system: Seq<char>,
    user: Seq<char>,
)
    requires
        agent_wf(s),
        s.phase == AgentPhase::AwaitingReply,
        conversation_shape(s, system, user),
    ensures
        conversation_shape(on_assistant_message(s, m).0, system, user),
{
    if asks_for_tools(m) {
        let msgs = s.messages.push(m);
        let k = s.messages.len() as int;
        assert(msgs.subrange(2, k) =~= s.messages.skip(2));
        assert(msgs.subrange(k + 1, msgs.len() as int) =~= Seq::<ChatMessageView>::empty());
        assert(m.tool_calls->0.take(0) =~= Seq::<ToolCallView>::empty());
    }
}

/// A run of the agent loop from `s` on `events`: the final state and the
/// actions taken, one per event, in order.
pub open spec fn agent_run(s: AgentLoopView, events: Seq<AgentEventView>) -> (
    AgentLoopView,
    Seq<AgentActionView>,
)
    decreases events.len(),
{
    if events.len() == 0 {
        (s, Seq::empty())
    } else {
        let (mid, actions) = agent_run(s, events.drop_last());
        let (next, action) = agent_policy(mid, events.last());
        (next, actions.push(action))
    }
}

/// Each event of the run is one that the loop waits for at that point.
pub open spec fn agent_run_valid(s: AgentLoopView, events: Seq<AgentEventView>) -> bool
    decreases events.len(),
{
    if events.len() == 0 {
        true
    } else {
        agent_run_valid(s, events.drop_last()) && agent_accepts(
            agent_run(s, events.drop_last()).0,
            events.last(),
        )
    }
}

/// Over a whole run, the conversation keeps its shape: the system prompt, the
/// user prompt, then whole tool-call rounds (the assistant message asking for
/// calls, then one `tool` message per call answering it, in order); a reply
/// without tool calls adds no message. So every request is sent with that
/// conversation.
pub proof fn lemma_agent_run_conversation(
    mode: AgentMode,
    system: Seq<char>,
    user: Seq<char>,
    events: Seq<AgentEventView>,
)
    requires
        agent_run_valid(initial_run(mode, system, user), events),
    ensures
        agent_wf(agent_run(initial_run(mode, system, user), events).0),
        conversation_shape(agent_run(initial_run(mode, system, user), events).0, system, user),
        agent_run(initial_run(mode, system, user), events).0.phase == AgentPhase::AwaitingReply
            ==> complete_rounds(agent_run(initial_run(mode, system, user), events).0.messages.skip(
            2,
        )),
    decreases events.len(),
{
    let s0 = initial_run(mode, system, user);
    if events.len() == 0 {
        assert(s0.messages.skip(2) =~= Seq::<ChatMessageView>::empty());
    } else {
        lemma_agent_run_conversation(mode, system, user, events.drop_last());
        let mid = agent_run(s0, events.drop_last()).0;
        lemma_agent_request_budget(mid, events.last());
        lemma_agent_step_keeps_shape(mid, events.last(), system, user);
    }
}

/// The messages of a conversation that are not tool answers, in order.
pub open spec fn non_tool_messages(msgs: Seq<ChatMessageView>) -> Seq<ChatMessageView>
    decreases msgs.len(),
{
    if msgs.len() == 0 {
        Seq::empty()
    } else {
        let earlier = non_tool_messages(msgs.drop_last());
        if msgs.last().role == "tool"@ {
            earlier
        } else {
            earlier.push(msgs.last())
        }
    }
}

/// The assistant messages of the streamed turns that asked for tool calls,
/// in order: each holds its turn's text (none when empty) and its calls.
pub open spec fn streamed_tool_rounds(events: Seq<AgentEventView>) -> Seq<ChatMessageView>
    decreases events.len(),
{
    if events.len() == 0 {
        Seq::empty()
    } else {
        let earlier = streamed_tool_rounds(events.drop_last());
        match events.last() {
            AgentEventView::Streamed(turn) => if asks_for_tools(turn_message(turn)) {
                earlier.push(turn_message(turn))
            } else {
                earlier
            },
            _ => earlier,
        }
    }
}

/// Over a whole streamed run, the conversation sent with each request is the
/// system prompt, the user prompt, then whole tool-call rounds; and the
/// assistant message opening each round is, in order, the message of the
/// streamed turn that asked for those calls: the turn's text (none when it is
/// empty) and its calls in slot order. Turns without tool calls add nothing.
pub proof fn lemma_streamed_run_assistant_messages(
    system: Seq<char>,
    user: Seq<char>,
    events: Seq<AgentEventView>,
)
    requires
        agent_run_valid(initial_run(AgentMode::Streaming, system, user), events),
    ensures
        conversation_shape(
            agent_run(initial_run(AgentMode::Streaming, system, user), events).0,
            system,
            user,
        ),
        agent_run(initial_run(AgentMode::Streaming, system, user), events).0.mode
            == AgentMode::Streaming,
        non_tool_messages(
            agent_run(initial_run(AgentMode::Streaming, system, user), events).0.messages.skip(2),
        ) == streamed_tool_rounds(events),
    decreases events.len(),
{
    let s0 = initial_run(AgentMode::Streaming, system, user);
    lemma_agent_run_conversation(AgentMode::Streaming, system, user, events);
    if events.len() == 0 {
        assert(s0.messages.skip(2) =~= Seq::<ChatMessageView>::empty());
    } else {
        let prefix = events.drop_last();
        lemma_streamed_run_assistant_messages(system, user, prefix);
        let mid = agent_run(s0, prefix).0;
        let e = events.last();
        let next = agent_policy(mid, e).0;
        let before = mid.messages.skip(2);
        assert(streamed_tool_rounds(events) == match e {
            AgentEventView::Streamed(turn) => if asks_for_tools(turn_message(turn)) {
                streamed_tool_rounds(prefix).push(turn_message(turn))
            } else {
                streamed_tool_rounds(prefix)
            },
            _ => streamed_tool_rounds(prefix),
        });
        match e {
            AgentEventView::Streamed(turn) => {
                let m = turn_message(turn);
                if asks_for_tools(m) {
                    assert(next.messages == mid.messages.push(m));
                    assert(next.messages.skip(2) =~= before.push(m));
                    assert(before.push(m).drop_last() =~= before);
                    assert(m.role != "tool"@) by {
                        reveal_strlit("assistant");
                        reveal_strlit("tool");
                        assert("assistant"@.len() != "tool"@.len());
                    }
                } else {
                    assert(next.messages == mid.messages);
                }
            },
            AgentEventView::ToolResult(r) => {
                let call = mid.pending[mid.next_call as int];
                let answer = tool_message(call.id, recorded_tool_output(mid.mode, r));
                assert(next.messages == mid.messages.push(answer));
                assert(next.messages.skip(2) =~= before.push(answer));
                assert(before.push(answer).drop_last() =~= before);
            },
            _ => {
                assert(next.messages == mid.messages);
            },
        }
    }
}

/// Each tool runs with its own call: after the result of the awaited call,
/// when another call of the same reply remains, the next action runs that
/// next call, by its name and with its arguments (announced only in a
/// streamed run).
pub proof fn lemma_next_tool_runs_with_its_own_arguments(
    s: AgentLoopView,
    r: Result<Seq<char>, Seq<char>>,
)
    requires
        agent_wf(s),
        agent_accepts(s, AgentEventView::ToolResult(r)),
        s.next_call + 1 < s.pending.len(),
    ensures
        ({
            let next = s.pending[s.next_call + 1int];
            let (after, action) = agent_policy(s, AgentEventView::ToolResult(r));
            &&& action matches AgentActionView::CallTool { name, arguments, notice }
            &&& name == next.function.name
            &&& arguments == next.function.arguments
            &&& (s.mode == AgentMode::Plain ==> notice is None)
            &&& (s.mode == AgentMode::Streaming ==> notice is Some)
            &&& after.next_call == s.next_call + 1
            &&& after.phase == AgentPhase::AwaitingToolResult
            &&& after.pending == s.pending
        }),
{
}

/// A reply that asks for tool calls first runs its first call, by its name
/// and with its arguments; a plain reply's message is the first choice's.
pub proof fn lemma_first_tool_runs_with_its_own_arguments(s: AgentLoopView, e: AgentEventView)
    requires
        agent_wf(s),
        agent_accepts(s, e),
        e is Answered || e is Streamed,
    ensures
        ({
            let m = match e {
                AgentEventView::Answered(ms) => if ms.len() > 0 {
                    Some(ms[0])
                } else {
                    None
                },
                AgentEventView::Streamed(turn) => Some(turn_message(turn)),
                _ => None,
            };
            match m {
                Some(msg) => match msg.tool_calls {
                    Some(calls) => calls.len() > 0 ==> {
                        let (after, action) = agent_policy(s, e);
                        &&& action matches AgentActionView::CallTool { name, arguments, notice }
                        &&& name == calls[0].function.name
                        &&& arguments == calls[0].function.arguments
                        &&& (s.mode == AgentMode::Plain ==> notice is None)
                        &&& after.pending == calls
                        &&& after.next_call == 0
                        &&& after.messages == s.messages.push(msg)
                    },
                    None => true,
                },
                None => true,
            }
        }),
{
}

} // verus!
