//! The retry policies of the completion requests, as state machines.
//!
//! The caller performs the requests, the timeouts and the waits; after each
//! outcome it asks the machine what to do next. `prompt_retry_step` decides
//! for a plain request; `StreamRetry` drives a streamed request, including
//! the cancellation checks and the delivery of the streamed text.
use vstd::prelude::*;
use vstd::string::*;
use crate::api::{
    ApiErrorCategory, MAX_ATTEMPTS, backoff_delay, backoff_millis, category_of_lowered,
    classify_error, is_transient, lowercased, transient, user_message_text,
};

verus! {

/// What a finished request hands back: the answer, or the failure category with
/// the text shown to the user.
pub type PromptResult = Result<String, (ApiErrorCategory, String)>;

/// `PromptResult` over character sequences.
pub type PromptResultView = Result<Seq<char>, (ApiErrorCategory, Seq<char>)>;

/// The view of a `PromptResult`.
pub open spec fn prompt_result_view(r: PromptResult) -> PromptResultView {
    match r {
        Ok(s) => Ok(s@),
        Err((c, m)) => Err((c, m@)),
    }
}

/// How one attempt of a plain completion request ended.
pub enum AttemptOutcome {
    /// The request answered with this text.
    Succeeded(String),
    /// The request failed with this raw error text.
    Failed(String),
    /// The request did not answer within the timeout.
    TimedOut,
}

/// `AttemptOutcome` over character sequences.
pub enum AttemptOutcomeView {
    Succeeded(Seq<char>),
    Failed(Seq<char>),
    TimedOut,
}

impl View for AttemptOutcome {
    type V = AttemptOutcomeView;

    open spec fn view(&self) -> AttemptOutcomeView {
        match self {
            AttemptOutcome::Succeeded(s) => AttemptOutcomeView::Succeeded(s@),
            AttemptOutcome::Failed(s) => AttemptOutcomeView::Failed(s@),
            AttemptOutcome::TimedOut => AttemptOutcomeView::TimedOut,
        }
    }
}

/// What to do after an attempt of a plain completion request.
pub enum RetryStep {
    /// Wait this many milliseconds, then make the next attempt.
    Wait(u64),
    /// Stop and hand this result to the caller.
    Finish(PromptResult),
}

/// `RetryStep` over character sequences.
pub enum RetryStepView {
    Wait(nat),
    Finish(PromptResultView),
}

impl View for RetryStep {
    type V = RetryStepView;

    open spec fn view(&self) -> RetryStepView {
        match self {
            RetryStep::Wait(ms) => RetryStepView::Wait(*ms as nat),
            RetryStep::Finish(r) => RetryStepView::Finish(prompt_result_view(*r)),
        }
    }
}

/// The raw error text recorded when a plain request times out.
pub open spec fn prompt_timeout_text() -> Seq<char> {
    "La requête vers Albert API a dépassé le délai imparti (timeout)."@
}

/// The text returned for a failed plain request: the category's message, then
/// the raw error in a fenced block.
pub open spec fn failure_report(category: ApiErrorCategory, raw: Seq<char>) -> Seq<char> {
    user_message_text(category) + "\n\nDétails techniques :\n```\n"@ + raw + "\n```"@
}

/// After the transient failure of attempt `attempt`: give up on the last
/// attempt, otherwise wait the backoff delay.
pub open spec fn after_transient_failure(
    attempt: nat,
    category: ApiErrorCategory,
    raw: Seq<char>,
) -> RetryStepView {
    if attempt + 1 >= MAX_ATTEMPTS {
        RetryStepView::Finish(Err((category, failure_report(category, raw))))
    } else {
        RetryStepView::Wait(backoff_millis(attempt))
    }
}

/// The retry policy of a plain request, after attempt `attempt` (0-based).
pub open spec fn prompt_retry_policy(attempt: nat, outcome: AttemptOutcomeView) -> RetryStepView {
    match outcome {
        AttemptOutcomeView::Succeeded(text) => RetryStepView::Finish(Ok(text)),
        AttemptOutcomeView::Failed(raw) => {
            let category = category_of_lowered(lowercased(raw));
            if !transient(category) {
                RetryStepView::Finish(Err((category, failure_report(category, raw))))
            } else {
                after_transient_failure(attempt, category, raw)
            }
        },
        AttemptOutcomeView::TimedOut => after_transient_failure(
            attempt,
            ApiErrorCategory::Timeout,
            prompt_timeout_text(),
        ),
    }
}

/// The failure report of a plain request.
fn build_failure_report(category: ApiErrorCategory, raw: &str) -> (report: String)
    ensures
        report@ == failure_report(category, raw@),
{
    let mut report = String::from_str(category.user_message());
    report.append("\n\nDétails techniques :\n```\n");
    report.append(raw);
    report.append("\n```");
    report
}

/// Decides what follows attempt `attempt` (0-based) of a plain completion
/// request: a success is handed back as it is; a non-transient failure ends
/// at once with the category's message and the raw error; a transient failure
/// or a timeout waits the backoff delay, unless it was the last attempt.
pub fn prompt_retry_step(attempt: u32, outcome: AttemptOutcome) -> (step: RetryStep)
    requires
        attempt < MAX_ATTEMPTS,
    ensures
        step@ == prompt_retry_policy(attempt as nat, outcome@),
{
    let (category, raw) = match outcome {
        AttemptOutcome::Succeeded(text) => {
            return RetryStep::Finish(Ok(text));
        },
        AttemptOutcome::Failed(raw) => {
            let category = classify_error(raw.as_str());
            if !is_transient(category) {
                let report = build_failure_report(category, raw.as_str());
                return RetryStep::Finish(Err((category, report)));
            }
            (category, raw)
        },
        AttemptOutcome::TimedOut => {
            let note = "La requête vers Albert API a dépassé le délai imparti (timeout).";
            (ApiErrorCategory::Timeout, String::from_str(note))
        },
    };
    if attempt + 1 >= MAX_ATTEMPTS {
        let report = build_failure_report(category, raw.as_str());
        RetryStep::Finish(Err((category, report)))
    } else {
        RetryStep::Wait(backoff_delay(attempt))
    }
}

/// A plain request makes at most `MAX_ATTEMPTS` attempts: whatever the last
/// attempt's outcome, the policy stops there.
pub proof fn lemma_prompt_retry_stops_at_last_attempt(outcome: AttemptOutcomeView)
    ensures
        prompt_retry_policy((MAX_ATTEMPTS - 1) as nat, outcome) is Finish,
{
}

/// A non-transient failure is never retried, and a success is handed back unchanged.
pub proof fn lemma_prompt_retry_only_transient(attempt: nat, outcome: AttemptOutcomeView)
    ensures
        outcome matches AttemptOutcomeView::Succeeded(t) ==> prompt_retry_policy(attempt, outcome)
            == RetryStepView::Finish(Ok(t)),
        outcome matches AttemptOutcomeView::Failed(raw) ==> (!transient(
            category_of_lowered(lowercased(raw)),
        ) ==> prompt_retry_policy(attempt, outcome) is Finish),
        prompt_retry_policy(attempt, outcome) matches RetryStepView::Wait(ms) ==> ms
            == backoff_millis(attempt),
{
}

/// Where a streamed request stands.
pub enum StreamPhase {
    /// An attempt is about to start; the cancellation flag is being checked.
    BeforeAttempt,
    /// The stream is being opened.
    Opening,
    /// The stream is open; the next chunk is awaited.
    Streaming,
    /// A chunk arrived; the cancellation flag is being checked before it is used.
    CheckingChunk(Result<String, String>),
    /// The backoff delay before the next attempt is running.
    Waiting,
    /// The request has ended.
    Finished,
}

/// `StreamPhase` over character sequences.
pub enum StreamPhaseView {
    BeforeAttempt,
    Opening,
    Streaming,
    CheckingChunk(Result<Seq<char>, Seq<char>>),
    Waiting,
    Finished,
}

impl View for StreamPhase {
    type V = StreamPhaseView;

    open spec fn view(&self) -> StreamPhaseView {
        match self {
            StreamPhase::BeforeAttempt => StreamPhaseView::BeforeAttempt,
            StreamPhase::Opening => StreamPhaseView::Opening,
            StreamPhase::Streaming => StreamPhaseView::Streaming,
            StreamPhase::CheckingChunk(Ok(t)) => StreamPhaseView::CheckingChunk(Ok(t@)),
            StreamPhase::CheckingChunk(Err(e)) => StreamPhaseView::CheckingChunk(Err(e@)),
            StreamPhase::Waiting => StreamPhaseView::Waiting,
            StreamPhase::Finished => StreamPhaseView::Finished,
        }
    }
}

/// What happened since the last action of a streamed request.
pub enum StreamEvent {
    /// The cancellation flag was read and has this value.
    Cancelled(bool),
    /// The stream was opened.
    Opened,
    /// Opening the stream failed with this raw error text.
    OpenFailed(String),
    /// Opening the stream did not finish within the timeout.
    OpenTimedOut,
    /// The stream produced this chunk, or this raw error text.
    Chunk(Result<String, String>),
    /// The stream ended.
    Ended,
    /// The backoff delay has passed.
    Waited,
}

/// `StreamEvent` over character sequences.
pub enum StreamEventView {
    Cancelled(bool),
    Opened,
    OpenFailed(Seq<char>),
    OpenTimedOut,
    Chunk(Result<Seq<char>, Seq<char>>),
    Ended,
    Waited,
}

impl View for StreamEvent {
    type V = StreamEventView;

    open spec fn view(&self) -> StreamEventView {
        match self {
            StreamEvent::Cancelled(b) => StreamEventView::Cancelled(*b),
            StreamEvent::Opened => StreamEventView::Opened,
            StreamEvent::OpenFailed(e) => StreamEventView::OpenFailed(e@),
            StreamEvent::OpenTimedOut => StreamEventView::OpenTimedOut,
            StreamEvent::Chunk(Ok(t)) => StreamEventView::Chunk(Ok(t@)),
            StreamEvent::Chunk(Err(e)) => StreamEventView::Chunk(Err(e@)),
            StreamEvent::Ended => StreamEventView::Ended,
            StreamEvent::Waited => StreamEventView::Waited,
        }
    }
}

/// What the caller of a streamed request does next.
pub enum StreamAction {
    /// Read the cancellation flag and report it.
    CheckCancelled,
    /// Open the stream (within the request timeout) and report how it went.
    OpenStream,
    /// Read the next chunk of the open stream.
    NextChunk,
    /// Hand this text to the chunk callback, then read the next chunk.
    Deliver(String),
    /// Wait this many milliseconds, then report it.
    Wait(u64),
    /// Stop with this result.
    Finish(PromptResult),
    /// Hand this text to the chunk callback, then stop with this result.
    DeliverThenFinish(String, PromptResult),
}

/// `StreamAction` over character sequences.
pub enum StreamActionView {
    CheckCancelled,
    OpenStream,
    NextChunk,
    Deliver(Seq<char>),
    Wait(nat),
    Finish(PromptResultView),
    DeliverThenFinish(Seq<char>, PromptResultView),
}

impl View for StreamAction {
    type V = StreamActionView;

    open spec fn view(&self) -> StreamActionView {
        match self {
            StreamAction::CheckCancelled => StreamActionView::CheckCancelled,
            StreamAction::OpenStream => StreamActionView::OpenStream,
            StreamAction::NextChunk => StreamActionView::NextChunk,
            StreamAction::Deliver(t) => StreamActionView::Deliver(t@),
            StreamAction::Wait(ms) => StreamActionView::Wait(*ms as nat),
            StreamAction::Finish(r) => StreamActionView::Finish(prompt_result_view(*r)),
            StreamAction::DeliverThenFinish(t, r) => StreamActionView::DeliverThenFinish(
                t@,
                prompt_result_view(*r),
            ),
        }
    }
}

/// The state of a streamed completion request with retries.
pub struct StreamRetry {
    attempt: u32,
    accumulated: String,
    phase: StreamPhase,
}

/// `StreamRetry` over character sequences.
pub struct StreamRetryView {
    /// The current attempt (0-based).
    pub attempt: nat,
    /// The text delivered so far.
    pub accumulated: Seq<char>,
    /// Where the request stands.
    pub phase: StreamPhaseView,
}

impl View for StreamRetry {
    type V = StreamRetryView;

    closed spec fn view(&self) -> StreamRetryView {
        StreamRetryView {
            attempt: self.attempt as nat,
            accumulated: self.accumulated@,
            phase: self.phase@,
        }
    }
}

/// The events that each phase waits for.
pub open spec fn stream_accepts(phase: StreamPhaseView, event: StreamEventView) -> bool {
    match phase {
        StreamPhaseView::BeforeAttempt => event is Cancelled,
        StreamPhaseView::Opening => event is Opened || event is OpenFailed || event is OpenTimedOut,
        StreamPhaseView::Streaming => event is Chunk || event is Ended,
        StreamPhaseView::CheckingChunk(_) => event is Cancelled,
        StreamPhaseView::Waiting => event is Waited,
        StreamPhaseView::Finished => false,
    }
}

/// A live request is never past its last attempt, and waits only for an
/// attempt that remains.
pub open spec fn stream_retry_wf(s: StreamRetryView) -> bool {
    &&& s.attempt < MAX_ATTEMPTS
    &&& s.phase is Waiting ==> s.attempt + 1 < MAX_ATTEMPTS
}

/// The raw error text recorded when opening a stream times out.
pub open spec fn stream_timeout_text() -> Seq<char> {
    "request timed out"@
}

/// The raw error appended as details, when there is one.
pub open spec fn details_suffix(raw: Seq<char>) -> Seq<char> {
    if raw.len() == 0 {
        Seq::empty()
    } else {
        "\n\nDetails: "@ + raw
    }
}

/// The notice appended to the streamed text when the stream fails midway.
pub open spec fn midstream_notice(category: ApiErrorCategory, raw: Seq<char>) -> Seq<char> {
    "\n\n⚠️ "@ + user_message_text(category) + details_suffix(raw)
}

/// After a transient failure to open the stream: give up on the last attempt,
/// otherwise wait the backoff delay.
pub open spec fn stream_after_open_failure(
    s: StreamRetryView,
    category: ApiErrorCategory,
    raw: Seq<char>,
) -> (StreamRetryView, StreamActionView) {
    if s.attempt + 1 >= MAX_ATTEMPTS {
        (
            StreamRetryView { phase: StreamPhaseView::Finished, ..s },
            StreamActionView::Finish(
                Err((category, user_message_text(category) + details_suffix(raw))),
            ),
        )
    } else {
        (
            StreamRetryView { phase: StreamPhaseView::Waiting, ..s },
            StreamActionView::Wait(backoff_millis(s.attempt)),
        )
    }
}

/// The policy of a streamed request: the next state and action after `event`.
pub open spec fn stream_retry_policy(s: StreamRetryView, event: StreamEventView) -> (
    StreamRetryView,
    StreamActionView,
) {
    let finished = StreamRetryView { phase: StreamPhaseView::Finished, ..s };
    match (s.phase, event) {
        (StreamPhaseView::BeforeAttempt, StreamEventView::Cancelled(true)) => (
            finished,
            StreamActionView::Finish(Ok(s.accumulated)),
        ),
        (StreamPhaseView::BeforeAttempt, StreamEventView::Cancelled(false)) => (
            StreamRetryView { phase: StreamPhaseView::Opening, ..s },
            StreamActionView::OpenStream,
        ),
        (StreamPhaseView::Opening, StreamEventView::Opened) => (
            StreamRetryView { phase: StreamPhaseView::Streaming, ..s },
            StreamActionView::NextChunk,
        ),
        (StreamPhaseView::Opening, StreamEventView::OpenFailed(raw)) => {
            let category = category_of_lowered(lowercased(raw));
            if !transient(category) {
                (finished, StreamActionView::Finish(Err((category, user_message_text(category)))))
            } else {
                stream_after_open_failure(s, category, raw)
            }
        },
        (StreamPhaseView::Opening, StreamEventView::OpenTimedOut) => stream_after_open_failure(
            s,
            ApiErrorCategory::Timeout,
            stream_timeout_text(),
        ),
        (StreamPhaseView::Waiting, StreamEventView::Waited) => (
            StreamRetryView {
                attempt: s.attempt + 1,
                phase: StreamPhaseView::BeforeAttempt,
                ..s
            },
            StreamActionView::CheckCancelled,
        ),
        (StreamPhaseView::Streaming, StreamEventView::Chunk(chunk)) => (
            StreamRetryView { phase: StreamPhaseView::CheckingChunk(chunk), ..s },
            StreamActionView::CheckCancelled,
        ),
        (StreamPhaseView::Streaming, StreamEventView::Ended) => (
            finished,
            StreamActionView::Finish(Ok(s.accumulated)),
        ),
        (StreamPhaseView::CheckingChunk(_), StreamEventView::Cancelled(true)) => (
            finished,
            StreamActionView::Finish(Ok(s.accumulated)),
        ),
        (StreamPhaseView::CheckingChunk(Ok(text)), StreamEventView::Cancelled(false)) => (
            StreamRetryView {
                accumulated: s.accumulated + text,
                phase: StreamPhaseView::Streaming,
                ..s
            },
            StreamActionView::Deliver(text),
        ),
        (StreamPhaseView::CheckingChunk(Err(raw)), StreamEventView::Cancelled(false)) => {
            let category = category_of_lowered(lowercased(raw));
            let notice = midstream_notice(category, raw);
            (
                StreamRetryView { accumulated: s.accumulated + notice, ..finished },
                StreamActionView::DeliverThenFinish(
                    notice,
                    Err((category, s.accumulated + notice)),
                ),
            )
        },
        _ => (s, StreamActionView::CheckCancelled),
    }
}

/// The closing message of a request whose stream could not be opened.
fn build_closing_message(category: ApiErrorCategory, raw: &str) -> (message: String)
    ensures
        message@ == user_message_text(category) + details_suffix(raw@),
{
    let mut message = String::from_str(category.user_message());
    if raw.unicode_len() > 0 {
        message.append("\n\nDetails: ");
        message.append(raw);
    } else {
        assert(message@ + details_suffix(raw@) =~= message@);
    }
    proof {
        assert(user_message_text(category) + details_suffix(raw@) =~= message@);
    }
    message
}

impl StreamRetry {
    /// The machine's invariant: a live request is never past its last attempt.
    pub open spec fn wf(&self) -> bool {
        stream_retry_wf(self@)
    }

    /// A fresh streamed request: first attempt, nothing delivered, and the
    /// cancellation flag to be checked first.
    pub fn new() -> (r: (StreamRetry, StreamAction))
        ensures
            r.0.wf(),
            r.0@ == (StreamRetryView {
                attempt: 0,
                accumulated: Seq::empty(),
                phase: StreamPhaseView::BeforeAttempt,
            }),
            r.1 is CheckCancelled,
    {
        (
            StreamRetry { attempt: 0, accumulated: String::new(), phase: StreamPhase::BeforeAttempt },
            StreamAction::CheckCancelled,
        )
    }

    /// The text delivered so far.
    pub fn accumulated(&self) -> (text: &String)
        ensures
            text@ == self@.accumulated,
    {
        &self.accumulated
    }

    /// Whether the request has ended.
    pub fn is_finished(&self) -> (b: bool)
        ensures
            b == (self@.phase is Finished),
    {
        match self.phase {
            StreamPhase::Finished => true,
            _ => false,
        }
    }

    fn after_open_failure(&mut self, category: ApiErrorCategory, raw: &str) -> (action:
        StreamAction)
        requires
            old(self).wf(),
        ensures
            final(self).wf(),
            (final(self)@, action@) == stream_after_open_failure(old(self)@, category, raw@),
    {
        if self.attempt + 1 >= MAX_ATTEMPTS {
            self.phase = StreamPhase::Finished;
            StreamAction::Finish(Err((category, build_closing_message(category, raw))))
        } else {
            self.phase = StreamPhase::Waiting;
            StreamAction::Wait(backoff_delay(self.attempt))
        }
    }

    /// Advances the request by one event and says what to do next: the
    /// cancellation flag is read before each attempt and before each chunk is
    /// used; a non-transient failure to open the stream ends the request, a
    /// transient one or a timeout is retried after the backoff delay while
    /// attempts remain; each chunk is appended to the text and delivered; a
    /// failure in the middle of the stream is never retried: a notice is
    /// appended, delivered, and the request fails with the whole text.
    pub fn step(&mut self, event: StreamEvent) -> (action: StreamAction)
        requires
            old(self).wf(),
            stream_accepts(old(self)@.phase, event@),
        ensures
            final(self).wf(),
            (final(self)@, action@) == stream_retry_policy(old(self)@, event@),
    {
        let mut phase = StreamPhase::Finished;
        std::mem::swap(&mut phase, &mut self.phase);
        match (phase, event) {
            (StreamPhase::BeforeAttempt, StreamEvent::Cancelled(cancelled)) => {
                if cancelled {
                    StreamAction::Finish(Ok(self.accumulated.clone()))
                } else {
                    self.phase = StreamPhase::Opening;
                    StreamAction::OpenStream
                }
            },
            (StreamPhase::Opening, StreamEvent::Opened) => {
                self.phase = StreamPhase::Streaming;
                StreamAction::NextChunk
            },
            (StreamPhase::Opening, StreamEvent::OpenFailed(raw)) => {
                let category = classify_error(raw.as_str());
                if !is_transient(category) {
                    StreamAction::Finish(
                        Err((category, String::from_str(category.user_message()))),
                    )
                } else {
                    self.phase = StreamPhase::Opening;
                    self.after_open_failure(category, raw.as_str())
                }
            },
            (StreamPhase::Opening, StreamEvent::OpenTimedOut) => {
                self.phase = StreamPhase::Opening;
                self.after_open_failure(ApiErrorCategory::Timeout, "request timed out")
            },
            (StreamPhase::Waiting, StreamEvent::Waited) => {
                self.attempt = self.attempt + 1;
                self.phase = StreamPhase::BeforeAttempt;
                StreamAction::CheckCancelled
            },
            (StreamPhase::Streaming, StreamEvent::Chunk(chunk)) => {
                self.phase = StreamPhase::CheckingChunk(chunk);
                StreamAction::CheckCancelled
            },
            (StreamPhase::Streaming, StreamEvent::Ended) => {
                StreamAction::Finish(Ok(self.accumulated.clone()))
            },
            (StreamPhase::CheckingChunk(chunk), StreamEvent::Cancelled(cancelled)) => {
                if cancelled {
                    StreamAction::Finish(Ok(self.accumulated.clone()))
                } else {
                    match chunk {
                        Ok(text) => {
                            self.accumulated.append(text.as_str());
                            self.phase = StreamPhase::Streaming;
                            StreamAction::Deliver(text)
                        },
                        Err(raw) => {
                            let category = classify_error(raw.as_str());
                            let mut notice = String::from_str("\n\n⚠️ ");
                            notice.append(category.user_message());
                            if raw.as_str().unicode_len() > 0 {
                                notice.append("\n\nDetails: ");
                                notice.append(raw.as_str());
                            }
                            proof {
                                assert(notice@ =~= midstream_notice(category, raw@));
                            }
                            self.accumulated.append(notice.as_str());
                            let whole = self.accumulated.clone();
                            StreamAction::DeliverThenFinish(notice, Err((category, whole)))
                        },
                    }
                }
            },
            (phase, _) => {
                self.phase = phase;
                StreamAction::CheckCancelled
            },
        }
    }
}

/// The text a streamed request hands back is exactly what it delivered: each
/// step either leaves the accumulated text alone or appends the delivered
/// text to it, and a result carries the accumulated text.
pub proof fn lemma_stream_text_is_delivered_text(s: StreamRetryView, event: StreamEventView)
    requires
        stream_accepts(s.phase, event),
    ensures
        ({
            let (next, action) = stream_retry_policy(s, event);
            match action {
                StreamActionView::Deliver(text) => next.accumulated == s.accumulated + text,
                StreamActionView::DeliverThenFinish(text, result) => {
                    &&& next.accumulated == s.accumulated + text
                    &&& result matches Err((_, whole)) && whole == s.accumulated + text
                },
                StreamActionView::Finish(Ok(text)) => text == s.accumulated,
                _ => next.accumulated == s.accumulated,
            }
        }),
{
}

/// Cancellation, whenever it is observed, ends the request successfully with
/// the text delivered so far.
pub proof fn lemma_stream_cancellation_keeps_text(s: StreamRetryView)
    requires
        s.phase is BeforeAttempt || s.phase is CheckingChunk,
    ensures
        stream_retry_policy(s, StreamEventView::Cancelled(true)).1 == StreamActionView::Finish(
            Ok(s.accumulated),
        ),
        stream_retry_policy(s, StreamEventView::Cancelled(true)).0.phase is Finished,
{
}

/// A streamed request makes at most `MAX_ATTEMPTS` attempts: a new attempt
/// starts only after a wait, and a wait is only chosen while attempts remain.
pub proof fn lemma_stream_attempts_bounded(s: StreamRetryView, event: StreamEventView)
    requires
        stream_retry_wf(s),
        stream_accepts(s.phase, event),
    ensures
        stream_retry_wf(stream_retry_policy(s, event).0),
        stream_retry_policy(s, event).1 is Wait ==> s.attempt + 1 < MAX_ATTEMPTS,
        stream_retry_policy(s, event).0.attempt != s.attempt ==> s.phase is Waiting,
{
}


/// The text an action hands to the chunk callback.
pub open spec fn delivered_text(action: StreamActionView) -> Seq<char> {
    match action {
        StreamActionView::Deliver(text) => text,
        StreamActionView::DeliverThenFinish(text, _) => text,
        _ => Seq::empty(),
    }
}

/// All the text that a sequence of actions hands to the chunk callback, in order.
pub open spec fn all_delivered(actions: Seq<StreamActionView>) -> Seq<char>
    decreases actions.len(),
{
    if actions.len() == 0 {
        Seq::empty()
    } else {
        all_delivered(actions.drop_last()) + delivered_text(actions.last())
    }
}

/// The state of a fresh streamed request.
pub open spec fn stream_start() -> StreamRetryView {
    StreamRetryView { attempt: 0, accumulated: Seq::empty(), phase: StreamPhaseView::BeforeAttempt }
}

/// A run of a streamed request from `s` on `events`: the final state and the
/// actions taken, one per event, in order.
pub open spec fn stream_run(s: StreamRetryView, events: Seq<StreamEventView>) -> (
    StreamRetryView,
    Seq<StreamActionView>,
)
    decreases events.len(),
{
    if events.len() == 0 {
        (s, Seq::empty())
    } else {
        let (mid, actions) = stream_run(s, events.drop_last());
        let (next, action) = stream_retry_policy(mid, events.last());
        (next, actions.push(action))
    }
}

/// Each event of the run is one that the request waits for at that point.
pub open spec fn stream_run_valid(s: StreamRetryView, events: Seq<StreamEventView>) -> bool
    decreases events.len(),
{
    if events.len() == 0 {
        true
    } else {
        stream_run_valid(s, events.drop_last()) && stream_accepts(
            stream_run(s, events.drop_last()).0.phase,
            events.last(),
        )
    }
}

/// The events contain no opened stream.
pub open spec fn never_opened(events: Seq<StreamEventView>) -> bool {
    forall|i: int| 0 <= i < events.len() ==> !(#[trigger] events[i] is Opened)
}

/// Over a whole run of a fresh streamed request: the accumulated text is
/// everything handed to the chunk callback; before a stream is open nothing
/// is handed over; and the result carries that text: a success is exactly
/// the handed text, a failure in the middle of the stream is the handed text
/// (its last piece being the notice), and any other failure comes with no
/// text handed over at all.
pub proof fn lemma_stream_run_text(events: Seq<StreamEventView>)
    requires
        stream_run_valid(stream_start(), events),
    ensures
        ({
            let (last, actions) = stream_run(stream_start(), events);
            &&& last.accumulated == all_delivered(actions)
            &&& stream_retry_wf(last)
            &&& (last.phase is BeforeAttempt || last.phase is Opening || last.phase is Waiting)
                ==> all_delivered(actions).len() == 0
            &&& never_opened(events) ==> all_delivered(actions).len() == 0 && !(
            last.phase is Streaming) && !(last.phase is CheckingChunk)
            &&& actions.len() > 0 ==> match actions.last() {
                StreamActionView::Finish(Ok(text)) => text == all_delivered(actions),
                StreamActionView::DeliverThenFinish(_, Err((_, whole))) => whole == all_delivered(
                    actions,
                ),
                StreamActionView::Finish(Err(_)) => all_delivered(actions).len() == 0,
                _ => true,
            }
        }),
    decreases events.len(),
{
    if events.len() > 0 {
        let prefix = events.drop_last();
        assert(never_opened(events) ==> never_opened(prefix)) by {
            if never_opened(events) {
                assert forall|i: int| 0 <= i < prefix.len() implies !(#[trigger] prefix[i] is Opened) by {
                    assert(prefix[i] == events[i]);
                }
            }
        }
        lemma_stream_run_text(prefix);
        let (mid, actions) = stream_run(stream_start(), prefix);
        let e = events.last();
        assert(never_opened(events) ==> !(e is Opened)) by {
            if never_opened(events) {
                assert(events[events.len() - 1] == e);
            }
        }
        lemma_stream_attempts_bounded(mid, e);
        let (next, action) = stream_retry_policy(mid, e);
        assert(actions.push(action).drop_last() =~= actions);
        assert(actions.push(action).last() == action);
        if delivered_text(action).len() == 0 {
            assert(all_delivered(actions) + delivered_text(action) =~= all_delivered(actions));
        }
    } else {
        assert(all_delivered(Seq::<StreamActionView>::empty()) =~= Seq::<char>::empty());
    }
}

/// Cancellation ends a whole run: once the cancellation flag is seen set, the
/// request accepts no further event (no stream is opened, no chunk handed
/// over, the flag is not read again), and its result is the text handed over
/// so far. When the very first reading is set, the run is that one step and
/// its result is the empty text.
pub proof fn lemma_stream_cancellation_ends_run(events: Seq<StreamEventView>, i: int)
    requires
        stream_run_valid(stream_start(), events),
        0 <= i < events.len(),
        events[i] == StreamEventView::Cancelled(true),
    ensures
        i == events.len() - 1,
        stream_run(stream_start(), events).0.phase is Finished,
        stream_run(stream_start(), events).1.last() == StreamActionView::Finish(
            Ok(all_delivered(stream_run(stream_start(), events).1)),
        ),
        i == 0 ==> stream_run(stream_start(), events).1 == seq![
            StreamActionView::Finish(Ok(Seq::empty())),
        ],
    decreases events.len(),
{
    let prefix = events.drop_last();
    lemma_stream_run_text(events);
    if i < events.len() - 1 {
        assert(prefix[i] == events[i]);
        assert(stream_run_valid(stream_start(), prefix));
        lemma_stream_cancellation_ends_run(prefix, i);
        assert(false);
    } else {
        lemma_stream_run_text(prefix);
        let (mid, actions) = stream_run(stream_start(), prefix);
        let action = stream_retry_policy(mid, events.last()).1;
        assert(actions.push(action).drop_last() =~= actions);
        assert(all_delivered(actions) + delivered_text(action) =~= all_delivered(actions));
        if i == 0 {
            assert(prefix.len() == 0);
            assert(actions =~= Seq::<StreamActionView>::empty());
            assert(actions.push(action) =~= seq![StreamActionView::Finish(Ok(Seq::empty()))]);
        }
    }
}

/// A rate-limit, network or timeout failure of any attempt but the last is
/// retried: the request waits 500 ms after the first attempt and 1000 ms
/// after the second; a timeout is retried in the same way. On the last
/// attempt the request gives up with that category.
pub proof fn lemma_transient_failures_are_retried(attempt: nat, raw: Seq<char>)
    requires
        attempt < MAX_ATTEMPTS,
    ensures
        ({
            let category = category_of_lowered(lowercased(raw));
            (category == ApiErrorCategory::RateLimit || category == ApiErrorCategory::Network
                || category == ApiErrorCategory::Timeout) ==> if attempt + 1 < MAX_ATTEMPTS {
                prompt_retry_policy(attempt, AttemptOutcomeView::Failed(raw)) == RetryStepView::Wait(
                    if attempt == 0 {
                        500
                    } else {
                        1000
                    },
                )
            } else {
                (prompt_retry_policy(attempt, AttemptOutcomeView::Failed(raw)) matches RetryStepView::Finish(
                    Err((c, _)),
                ) && c == category)
            }
        }),
        attempt + 1 < MAX_ATTEMPTS ==> prompt_retry_policy(attempt, AttemptOutcomeView::TimedOut)
            == RetryStepView::Wait(
            if attempt == 0 {
                500
            } else {
                1000
            },
        ),
        ({
            let category = category_of_lowered(lowercased(raw));
            (category == ApiErrorCategory::Authentication || category == ApiErrorCategory::Model
                || category == ApiErrorCategory::Other) ==> (prompt_retry_policy(
                attempt,
                AttemptOutcomeView::Failed(raw),
            ) matches RetryStepView::Finish(Err((c, _))) && c == category)
        }),
{
    vstd::arithmetic::power2::lemma2_to64();
}

/// A streamed request whose stream fails to open with a rate-limit, network
/// or timeout failure waits 500 ms, then 1000 ms, before its next attempt;
/// other failures to open end it at once.
pub proof fn lemma_stream_transient_open_failures_are_retried(s: StreamRetryView, raw: Seq<char>)
    requires
        s.phase is Opening,
        s.attempt + 1 < MAX_ATTEMPTS,
    ensures
        ({
            let category = category_of_lowered(lowercased(raw));
            (category == ApiErrorCategory::RateLimit || category == ApiErrorCategory::Network
                || category == ApiErrorCategory::Timeout) ==> stream_retry_policy(
                s,
                StreamEventView::OpenFailed(raw),
            ).1 == StreamActionView::Wait(
                if s.attempt == 0 {
                    500
                } else {
                    1000
                },
            )
        }),
        stream_retry_policy(s, StreamEventView::OpenTimedOut).1 == StreamActionView::Wait(
            if s.attempt == 0 {
                500
            } else {
                1000
            },
        ),
{
    vstd::arithmetic::power2::lemma2_to64();
}

} // verus!
