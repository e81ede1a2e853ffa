//! Classification of completion-API failures into user-facing categories, and
//! the retry policy (which failures are transient, how long to wait).
use vstd::prelude::*;
use vstd::string::*;
use rig::completion::Message as ModelMessage;
use crate::text::{concat, contains, contains_text, occurs_at, is_blank, is_blank_text, starts_with, starts_with_text};

verus! {

/// The maximum number of attempts (including the initial one) for a request.
pub const MAX_ATTEMPTS: u32 = 3;

/// The base delay, in milliseconds, of the exponential backoff between retries.
pub const BASE_BACKOFF_MS: u64 = 500;

/// The maximum delay, in milliseconds, between retries.
pub const MAX_BACKOFF_MS: u64 = 4000;

/// The timeout, in seconds, of a single completion request.
pub const REQUEST_TIMEOUT_SECS: u64 = 60;

/// Maximum number of historical messages sent in API requests to bound token usage.
pub const MAX_HISTORY_MESSAGES: usize = 20;

/// Categories of API failures, used to pick an appropriate user-facing message.
#[derive(Clone, Copy, Debug, PartialEq, Eq, Structural)]
pub enum ApiErrorCategory {
    /// The API key is missing or rejected (401/403).
    Authentication,
    /// The provider is rate-limiting us (429).
    RateLimit,
    /// A network/connection problem (DNS, refused, reset).
    Network,
    /// The request took too long.
    Timeout,
    /// The model/provider returned an error.
    Model,
    /// Anything else.
    Other,
}

/// The user-facing message of each category.
pub open spec fn user_message_text(category: ApiErrorCategory) -> Seq<char> {
    match category {
        ApiErrorCategory::Authentication => "Authentication failed. Please check your Albert API key — it may be missing, invalid, or expired. Set the ALBERT_API_KEY environment variable or update your config file."@,
        ApiErrorCategory::RateLimit => "The Albert API is rate-limiting requests. Please wait a moment and try again."@,
        ApiErrorCategory::Network => "A network error occurred while contacting the Albert API. Please check your internet connection and try again."@,
        ApiErrorCategory::Timeout => "The request to the Albert API timed out. Please try again."@,
        ApiErrorCategory::Model => "The Albert model returned an error. Please try rephrasing your request."@,
        ApiErrorCategory::Other => "An unexpected error occurred while contacting the Albert API. Please try again."@,
    }
}

impl ApiErrorCategory {
    /// A human-friendly message for this category.
    pub fn user_message(&self) -> (message: &'static str)
        ensures
            message@ == user_message_text(*self),
    {
        match self {
            ApiErrorCategory::Authentication => "Authentication failed. Please check your Albert API key — it may be missing, invalid, or expired. Set the ALBERT_API_KEY environment variable or update your config file.",
            ApiErrorCategory::RateLimit => "The Albert API is rate-limiting requests. Please wait a moment and try again.",
            ApiErrorCategory::Network => "A network error occurred while contacting the Albert API. Please check your internet connection and try again.",
            ApiErrorCategory::Timeout => "The request to the Albert API timed out. Please try again.",
            ApiErrorCategory::Model => "The Albert model returned an error. Please try rephrasing your request.",
            ApiErrorCategory::Other => "An unexpected error occurred while contacting the Albert API. Please try again.",
        }
    }
}

/// The lowercased error text mentions an authentication failure.
pub open spec fn mentions_authentication(lower: Seq<char>) -> bool {
    ||| contains_text(lower, "401"@)
    ||| contains_text(lower, "403"@)
    ||| contains_text(lower, "unauthorized"@)
    ||| contains_text(lower, "forbidden"@)
    ||| contains_text(lower, "invalid api key"@)
    ||| contains_text(lower, "authentication"@)
    ||| contains_text(lower, "api key"@)
}

/// The lowercased error text mentions rate limiting.
pub open spec fn mentions_rate_limit(lower: Seq<char>) -> bool {
    ||| contains_text(lower, "429"@)
    ||| contains_text(lower, "rate limit"@)
    ||| contains_text(lower, "too many requests"@)
    ||| contains_text(lower, "quota"@)
}

/// The lowercased error text mentions a network problem.
pub open spec fn mentions_network(lower: Seq<char>) -> bool {
    ||| contains_text(lower, "connection"@)
    ||| contains_text(lower, "dns"@)
    ||| contains_text(lower, "refused"@)
    ||| contains_text(lower, "reset"@)
    ||| contains_text(lower, "network"@)
    ||| contains_text(lower, "unreachable"@)
    ||| contains_text(lower, "tcp"@)
    ||| contains_text(lower, "socket"@)
    ||| contains_text(lower, "http"@)
}

/// The lowercased error text mentions a timeout.
pub open spec fn mentions_timeout(lower: Seq<char>) -> bool {
    ||| contains_text(lower, "timeout"@)
    ||| contains_text(lower, "timed out"@)
    ||| contains_text(lower, "deadline"@)
    ||| contains_text(lower, "elapsed"@)
}

/// The lowercased error text mentions a model or provider error.
pub open spec fn mentions_model(lower: Seq<char>) -> bool {
    ||| contains_text(lower, "provider"@)
    ||| contains_text(lower, "model"@)
    ||| contains_text(lower, "responseerror"@)
    ||| contains_text(lower, "bad request"@)
    ||| contains_text(lower, "400"@)
    ||| contains_text(lower, "500"@)
    ||| contains_text(lower, "502"@)
    ||| contains_text(lower, "503"@)
    ||| contains_text(lower, "504"@)
}

/// The category of an already lowercased error text; earlier categories win.
pub open spec fn category_of_lowered(lower: Seq<char>) -> ApiErrorCategory {
    if mentions_authentication(lower) {
        ApiErrorCategory::Authentication
    } else if mentions_rate_limit(lower) {
        ApiErrorCategory::RateLimit
    } else if mentions_network(lower) {
        ApiErrorCategory::Network
    } else if mentions_timeout(lower) {
        ApiErrorCategory::Timeout
    } else if mentions_model(lower) {
        ApiErrorCategory::Model
    } else {
        ApiErrorCategory::Other
    }
}

/// The order in which the categories are tested (earlier wins).
pub open spec fn category_rank(category: ApiErrorCategory) -> nat {
    match category {
        ApiErrorCategory::Authentication => 0,
        ApiErrorCategory::RateLimit => 1,
        ApiErrorCategory::Network => 2,
        ApiErrorCategory::Timeout => 3,
        ApiErrorCategory::Model => 4,
        ApiErrorCategory::Other => 5,
    }
}

/// A text found in `s` is still found once text is added before or after `s`.
proof fn lemma_contains_extends(s: Seq<char>, t: Seq<char>, p: Seq<char>)
    requires
        contains_text(s, p),
    ensures
        contains_text(s + t, p),
        contains_text(t + s, p),
{
    let i = choose|i: int| #[trigger] occurs_at(s, p, i);
    assert((s + t).subrange(i, i + p.len()) =~= s.subrange(i, i + p.len()));
    assert(occurs_at(s + t, p, i));
    let j = i + t.len();
    assert((t + s).subrange(j, j + p.len()) =~= s.subrange(i, i + p.len()));
    assert(occurs_at(t + s, p, j));
}

/// Adding text to a lowercased error text never moves its category to one
/// that is tested later: every keyword found stays found.
pub proof fn lemma_category_rank_never_grows(lower: Seq<char>, extra: Seq<char>)
    ensures
        category_rank(category_of_lowered(lower + extra)) <= category_rank(
            category_of_lowered(lower),
        ),
        category_rank(category_of_lowered(extra + lower)) <= category_rank(
            category_of_lowered(lower),
        ),
{
    assert forall|p: Seq<char>| #[trigger] contains_text(lower, p) implies contains_text(
        lower + extra,
        p,
    ) && contains_text(extra + lower, p) by {
        lemma_contains_extends(lower, extra, p);
    }
}

/// The keyword law of classification, on lowercased error text: the
/// authentication keywords (401, 403, unauthorized, forbidden, invalid api
/// key, authentication, api key) win over everything; then the rate-limit
/// keywords (429, rate limit, too many requests, quota); then the network
/// keywords (connection, dns, refused, reset, network, unreachable, tcp,
/// socket, http); then the timeout keywords (timeout, timed out, deadline,
/// elapsed); then the model keywords (provider, model, responseerror, bad
/// request, 400, 500, 502, 503, 504); a text with none of them is `Other`.
/// Each category is given exactly when one of its keywords occurs and none of
/// an earlier group does.
pub proof fn lemma_classification_keywords(lower: Seq<char>)
    ensures
        ({
            let auth = contains_text(lower, "401"@) || contains_text(lower, "403"@)
                || contains_text(lower, "unauthorized"@) || contains_text(lower, "forbidden"@)
                || contains_text(lower, "invalid api key"@) || contains_text(
                lower,
                "authentication"@,
            ) || contains_text(lower, "api key"@);
            let rate = contains_text(lower, "429"@) || contains_text(lower, "rate limit"@)
                || contains_text(lower, "too many requests"@) || contains_text(lower, "quota"@);
            let network = contains_text(lower, "connection"@) || contains_text(lower, "dns"@)
                || contains_text(lower, "refused"@) || contains_text(lower, "reset"@)
                || contains_text(lower, "network"@) || contains_text(lower, "unreachable"@)
                || contains_text(lower, "tcp"@) || contains_text(lower, "socket"@) || contains_text(
                lower,
                "http"@,
            );
            let timeout = contains_text(lower, "timeout"@) || contains_text(lower, "timed out"@)
                || contains_text(lower, "deadline"@) || contains_text(lower, "elapsed"@);
            let model = contains_text(lower, "provider"@) || contains_text(lower, "model"@)
                || contains_text(lower, "responseerror"@) || contains_text(lower, "bad request"@)
                || contains_text(lower, "400"@) || contains_text(lower, "500"@) || contains_text(
                lower,
                "502"@,
            ) || contains_text(lower, "503"@) || contains_text(lower, "504"@);
            let c = category_of_lowered(lower);
            &&& (c == ApiErrorCategory::Authentication <==> auth)
            &&& (c == ApiErrorCategory::RateLimit <==> !auth && rate)
            &&& (c == ApiErrorCategory::Network <==> !auth && !rate && network)
            &&& (c == ApiErrorCategory::Timeout <==> !auth && !rate && !network && timeout)
            &&& (c == ApiErrorCategory::Model <==> !auth && !rate && !network && !timeout && model)
            &&& (c == ApiErrorCategory::Other <==> !auth && !rate && !network && !timeout
                && !model)
        }),
{
}

/// What `str::to_lowercase` returns for a text (the Unicode lowercase mapping).
pub uninterp spec fn lowercased(s: Seq<char>) -> Seq<char>;

/// Calls `str::to_lowercase`; its result is named by `lowercased`.
#[verifier::external_body]
fn to_lowercase(s: &str) -> (lower: String)
    ensures
        lower@ == lowercased(s@),
{
    s.to_lowercase()
}

/// The category of an error whose text has already been lowercased.
pub fn classify_lowercased(lower: &str) -> (category: ApiErrorCategory)
    ensures
        category == category_of_lowered(lower@),
{
    if contains(lower, "401") || contains(lower, "403") || contains(lower, "unauthorized")
        || contains(lower, "forbidden") || contains(lower, "invalid api key") || contains(
        lower,
        "authentication",
    ) || contains(lower, "api key") {
        return ApiErrorCategory::Authentication;
    }
    if contains(lower, "429") || contains(lower, "rate limit") || contains(
        lower,
        "too many requests",
    ) || contains(lower, "quota") {
        return ApiErrorCategory::RateLimit;
    }
    if contains(lower, "connection") || contains(lower, "dns") || contains(lower, "refused")
        || contains(lower, "reset") || contains(lower, "network") || contains(lower, "unreachable")
        || contains(lower, "tcp") || contains(lower, "socket") || contains(lower, "http") {
        return ApiErrorCategory::Network;
    }
    if contains(lower, "timeout") || contains(lower, "timed out") || contains(lower, "deadline")
        || contains(lower, "elapsed") {
        return ApiErrorCategory::Timeout;
    }
    if contains(lower, "provider") || contains(lower, "model") || contains(lower, "responseerror")
        || contains(lower, "bad request") || contains(lower, "400") || contains(lower, "500")
        || contains(lower, "502") || contains(lower, "503") || contains(lower, "504") {
        return ApiErrorCategory::Model;
    }
    ApiErrorCategory::Other
}

/// Classify a raw error string into a category: the text is lowercased, then
/// tested for authentication, rate-limit, network, timeout and model keywords
/// in that order; the first group that matches decides.
pub fn classify_error(error: &str) -> (category: ApiErrorCategory)
    ensures
        category == category_of_lowered(lowercased(error@)),
{
    let lower = to_lowercase(error);
    classify_lowercased(lower.as_str())
}

/// The categories worth retrying.
pub open spec fn transient(category: ApiErrorCategory) -> bool {
    category is Network || category is Timeout || category is RateLimit
}

/// Whether an error is transient and worth retrying.
pub fn is_transient(category: ApiErrorCategory) -> (b: bool)
    ensures
        b == transient(category),
{
    match category {
        ApiErrorCategory::Network | ApiErrorCategory::Timeout | ApiErrorCategory::RateLimit => true,
        _ => false,
    }
}

/// The backoff delay, in milliseconds, after the failed attempt `attempt`
/// (0-based): 500 ms doubled per attempt up to the fourth, capped at 4 s.
pub open spec fn backoff_millis(attempt: nat) -> nat {
    let e: nat = if attempt < 4 {
        attempt
    } else {
        4
    };
    let d: nat = (BASE_BACKOFF_MS as nat) * vstd::arithmetic::power2::pow2(e);
    if d < MAX_BACKOFF_MS {
        d
    } else {
        MAX_BACKOFF_MS as nat
    }
}

/// Compute the backoff delay, in milliseconds, for a given attempt (0-based).
pub fn backoff_delay(attempt: u32) -> (millis: u64)
    ensures
        millis == backoff_millis(attempt as nat),
{
    proof {
        vstd::arithmetic::power2::lemma2_to64();
    }
    let factor: u64 = if attempt == 0 {
        1
    } else if attempt == 1 {
        2
    } else if attempt == 2 {
        4
    } else if attempt == 3 {
        8
    } else {
        16
    };
    let d = BASE_BACKOFF_MS * factor;
    if d < MAX_BACKOFF_MS {
        d
    } else {
        MAX_BACKOFF_MS
    }
}

/// The backoff never exceeds the cap and never shrinks from one attempt to the next.
pub proof fn lemma_backoff_capped_and_monotone(a: nat, b: nat)
    requires
        a <= b,
    ensures
        backoff_millis(a) <= MAX_BACKOFF_MS,
        backoff_millis(a) <= backoff_millis(b),
        backoff_millis(a) >= BASE_BACKOFF_MS,
{
    vstd::arithmetic::power2::lemma2_to64();
}

/// Role of a message sender in the natural language chat.
#[derive(Clone, Copy, Debug, PartialEq, Eq, Structural)]
pub enum Role {
    AI,
    User,
}

/// A chat message entry containing sender role and string content.
#[derive(Debug, PartialEq, Eq)]
pub struct Message {
    pub role: Role,
    pub content: String,
}

/// `Message` over character sequences.
pub struct MessageView {
    pub role: Role,
    pub content: Seq<char>,
}

impl View for Message {
    type V = MessageView;

    open spec fn view(&self) -> MessageView {
        MessageView { role: self.role, content: self.content@ }
    }
}

impl Clone for Message {
    fn clone(&self) -> (copy: Self)
        ensures
            copy@ == self@,
    {
        Message { role: self.role, content: self.content.clone() }
    }
}

/// The views of a sequence of messages.
pub open spec fn message_views(messages: Seq<Message>) -> Seq<MessageView> {
    messages.map_values(|m: Message| m@)
}

/// The opening of the assistant's welcome message.
pub open spec fn welcome_prefix() -> Seq<char> {
    "Hello! I'm your coding assistant"@
}

/// The opening of the message shown after the chat is cleared.
pub open spec fn cleared_prefix() -> Seq<char> {
    "Chat cleared"@
}

/// The opening of a warning shown in the chat.
pub open spec fn warning_prefix() -> Seq<char> {
    "⚠️ "@
}

/// A message of the application itself (welcome, cleared chat, warning),
/// not a turn of the conversation.
pub open spec fn is_app_notice(m: MessageView) -> bool {
    m.role == Role::AI && (starts_with_text(m.content, welcome_prefix()) || starts_with_text(
        m.content,
        cleared_prefix(),
    ) || starts_with_text(m.content, warning_prefix()))
}

/// A message that is sent to the model as part of the history.
pub open spec fn is_conversation_turn(m: MessageView) -> bool {
    !is_app_notice(m) && !is_blank_text(m.content)
}

/// The conversation turns among `messages`, in order.
pub open spec fn conversation_turns(messages: Seq<MessageView>) -> Seq<MessageView>
    decreases messages.len(),
{
    if messages.len() == 0 {
        Seq::empty()
    } else {
        let earlier = conversation_turns(messages.drop_last());
        if is_conversation_turn(messages.last()) {
            earlier.push(messages.last())
        } else {
            earlier
        }
    }
}

/// The last `max` elements of `turns` (all of them if there are fewer).
pub open spec fn last_n<A>(turns: Seq<A>, max: nat) -> Seq<A> {
    if turns.len() > max {
        turns.skip(turns.len() - max)
    } else {
        turns
    }
}

/// The history sent to the model: the conversation turns, keeping the last `max`.
pub open spec fn chat_history(messages: Seq<MessageView>, max: nat) -> Seq<MessageView> {
    last_n(conversation_turns(messages), max)
}

/// Every message kept as a conversation turn is one, and there are no more
/// turns than messages.
pub proof fn lemma_conversation_turns_are_turns(messages: Seq<MessageView>)
    ensures
        conversation_turns(messages).len() <= messages.len(),
        forall|i: int|
            0 <= i < conversation_turns(messages).len() ==> is_conversation_turn(
                #[trigger] conversation_turns(messages)[i],
            ),
    decreases messages.len(),
{
    if messages.len() > 0 {
        lemma_conversation_turns_are_turns(messages.drop_last());
    }
}

/// The history holds at most `max` entries, all conversation turns: the last
/// `max` turns, in their order.
pub proof fn lemma_chat_history_shape(messages: Seq<MessageView>, max: nat)
    ensures
        chat_history(messages, max).len() <= max,
        chat_history(messages, max).len() == if conversation_turns(messages).len() <= max {
            conversation_turns(messages).len()
        } else {
            max
        },
        chat_history(messages, max) == conversation_turns(messages).skip(
            conversation_turns(messages).len() - chat_history(messages, max).len(),
        ),
        forall|i: int|
            0 <= i < chat_history(messages, max).len() ==> is_conversation_turn(
                #[trigger] chat_history(messages, max)[i],
            ),
{
    lemma_conversation_turns_are_turns(messages);
    let turns = conversation_turns(messages);
    let h = chat_history(messages, max);
    if turns.len() <= max {
        assert(turns.skip(0) =~= turns);
    } else {
        assert forall|i: int| 0 <= i < h.len() implies is_conversation_turn(#[trigger] h[i]) by {
            assert(h[i] == turns[i + turns.len() - max]);
        }
    }
}

/// The turns of joined message lists are the turns of each list, joined.
pub proof fn lemma_conversation_turns_join(a: Seq<MessageView>, b: Seq<MessageView>)
    ensures
        conversation_turns(a + b) == conversation_turns(a) + conversation_turns(b),
    decreases b.len(),
{
    if b.len() == 0 {
        assert(a + b =~= a);
        assert(conversation_turns(a) + conversation_turns(b) =~= conversation_turns(a));
    } else {
        assert((a + b).drop_last() =~= a + b.drop_last());
        assert((a + b).last() == b.last());
        lemma_conversation_turns_join(a, b.drop_last());
        if is_conversation_turn(b.last()) {
            assert(conversation_turns(a) + conversation_turns(b.drop_last()).push(b.last())
                =~= (conversation_turns(a) + conversation_turns(b.drop_last())).push(b.last()));
        }
    }
}

/// With no effective limit the history is every conversation turn, and a
/// limit `k` keeps the last `k` entries of that unlimited history.
pub proof fn lemma_chat_history_limits(messages: Seq<MessageView>, k: nat)
    requires
        messages.len() <= usize::MAX,
    ensures
        chat_history(messages, usize::MAX as nat) == conversation_turns(messages),
        chat_history(messages, k) == last_n(chat_history(messages, usize::MAX as nat), k),
        history_entries(messages, k) == last_n(history_entries(messages, usize::MAX as nat), k),
{
    lemma_conversation_turns_are_turns(messages);
    let all = conversation_turns(messages);
    let entries = all.map_values(|m: MessageView| rig_entry(m));
    if all.len() > k {
        assert(all.skip(all.len() - k).map_values(|m: MessageView| rig_entry(m)) =~= entries.skip(
            entries.len() - k,
        ));
    }
}

/// The unlimited history of joined message lists is the unlimited histories
/// of each list, joined.
pub proof fn lemma_chat_history_join(a: Seq<MessageView>, b: Seq<MessageView>)
    requires
        a.len() + b.len() <= usize::MAX,
    ensures
        chat_history(a + b, usize::MAX as nat) == chat_history(a, usize::MAX as nat)
            + chat_history(b, usize::MAX as nat),
        history_entries(a + b, usize::MAX as nat) == history_entries(a, usize::MAX as nat)
            + history_entries(b, usize::MAX as nat),
{
    lemma_chat_history_limits(a + b, 0);
    lemma_chat_history_limits(a, 0);
    lemma_chat_history_limits(b, 0);
    lemma_conversation_turns_join(a, b);
    let ta = conversation_turns(a);
    let tb = conversation_turns(b);
    assert((ta + tb).map_values(|m: MessageView| rig_entry(m)) =~= ta.map_values(
        |m: MessageView| rig_entry(m),
    ) + tb.map_values(|m: MessageView| rig_entry(m)));
}

/// Whether a message is a conversation turn.
fn conversation_turn(m: &Message) -> (b: bool)
    ensures
        b == is_conversation_turn(m@),
{
    let notice = m.role == Role::AI && (starts_with(m.content.as_str(), "Hello! I'm your coding assistant")
        || starts_with(m.content.as_str(), "Chat cleared") || starts_with(m.content.as_str(), "⚠️ "));
    !notice && !is_blank(m.content.as_str())
}

/// The messages of the history, before they are converted for the model:
/// the conversation turns (no welcome, cleared-chat or warning notice of the
/// assistant, no blank message), in order, keeping the last `max_history`.
pub fn history_turns(messages: &[Message], max_history: usize) -> (turns: Vec<Message>)
    ensures
        message_views(turns@) == chat_history(message_views(messages@), max_history as nat),
{
    let mut kept: Vec<Message> = Vec::new();
    let mut i: usize = 0;
    while i < messages.len()
        invariant
            i <= messages@.len(),
            message_views(kept@) == conversation_turns(message_views(messages@.take(i as int))),
        decreases messages@.len() - i,
    {
        let m = &messages[i];
        proof {
            assert(message_views(messages@.take(i + 1)).drop_last() =~= message_views(
                messages@.take(i as int),
            ));
            assert(message_views(messages@.take(i + 1)).last() == messages@[i as int]@);
        }
        if conversation_turn(m) {
            let copy = m.clone();
            let ghost before = kept@;
            kept.push(copy);
            proof {
                assert(message_views(kept@) =~= message_views(before).push(copy@));
            }
        }
        i = i + 1;
    }
    proof {
        assert(messages@.take(messages@.len() as int) =~= messages@);
    }
    let n = kept.len();
    if n <= max_history {
        return kept;
    }
    let start = n - max_history;
    let mut turns: Vec<Message> = Vec::new();
    let mut j: usize = start;
    while j < n
        invariant
            start <= j <= n == kept.len(),
            message_views(turns@) == message_views(kept@).subrange(start as int, j as int),
        decreases n - j,
    {
        turns.push(kept[j].clone());
        proof {
            assert(message_views(kept@).subrange(start as int, j + 1) =~= message_views(
                kept@,
            ).subrange(start as int, j as int).push(kept@[j as int]@));
            assert(message_views(turns@) =~= message_views(turns@.drop_last()).push(
                turns@.last()@,
            ));
        }
        j = j + 1;
    }
    proof {
        assert(message_views(kept@).subrange(start as int, n as int) =~= message_views(
            kept@,
        ).skip(start as int));
    }
    turns
}

/// The history entry `rig::completion::Message::user` builds from a text.
pub uninterp spec fn rig_user_message(text: Seq<char>) -> ModelMessage;

/// The history entry `rig::completion::Message::assistant` builds from a text.
pub uninterp spec fn rig_assistant_message(text: Seq<char>) -> ModelMessage;

/// The message type of the `rig` completion API.
#[verifier::external_type_specification]
#[verifier::external_body]
pub struct ExRigMessage(ModelMessage);

/// Calls `rig::completion::Message::user`: a user message holding one text block.
#[verifier::external_body]
fn rig_user(text: String) -> (m: ModelMessage)
    ensures
        m == rig_user_message(text@),
{
    ModelMessage::user(text)
}

/// Calls `rig::completion::Message::assistant`: an assistant message holding one text block.
#[verifier::external_body]
fn rig_assistant(text: String) -> (m: ModelMessage)
    ensures
        m == rig_assistant_message(text@),
{
    ModelMessage::assistant(text)
}

/// The `rig` history entry of a conversation turn.
pub open spec fn rig_entry(m: MessageView) -> ModelMessage {
    match m.role {
        Role::User => rig_user_message(m.content),
        Role::AI => rig_assistant_message(m.content),
    }
}

/// The `rig` history entries of the messages, keeping the last `max` turns.
pub open spec fn history_entries(messages: Seq<MessageView>, max: nat) -> Seq<ModelMessage> {
    chat_history(messages, max).map_values(|m: MessageView| rig_entry(m))
}

/// Build a list of `rig::completion::Message` context history items from UI
/// messages, skipping the assistant's welcome, cleared-chat and warning
/// notices and blank messages, and keeping the last `max_history` entries.
pub fn build_chat_history(messages: &[Message], max_history: usize) -> (history: Vec<
    ModelMessage,
>)
    ensures
        history@.len() == chat_history(message_views(messages@), max_history as nat).len(),
        forall|i: int|
            0 <= i < history@.len() ==> #[trigger] history@[i] == rig_entry(
                chat_history(message_views(messages@), max_history as nat)[i],
            ),
        history@ == history_entries(message_views(messages@), max_history as nat),
{
    let turns = history_turns(messages, max_history);
    let ghost expected = chat_history(message_views(messages@), max_history as nat);
    let mut history: Vec<ModelMessage> = Vec::new();
    let mut i: usize = 0;
    while i < turns.len()
        invariant
            i <= turns@.len(),
            message_views(turns@) == expected,
            history@.len() == i,
            forall|k: int| 0 <= k < i ==> #[trigger] history@[k] == rig_entry(expected[k]),
        decreases turns@.len() - i,
    {
        let turn = &turns[i];
        assert(expected[i as int] == turns@[i as int]@);
        let entry = match turn.role {
            Role::User => rig_user(turn.content.clone()),
            Role::AI => rig_assistant(turn.content.clone()),
        };
        history.push(entry);
        i = i + 1;
    }
    assert(history@ =~= history_entries(message_views(messages@), max_history as nat));
    history
}

/// A function call requested by the model: the tool's name and its JSON arguments.
#[derive(Debug)]
pub struct FunctionCall {
    pub name: String,
    pub arguments: String,
}

/// `FunctionCall` over character sequences.
pub struct FunctionCallView {
    pub name: Seq<char>,
    pub arguments: Seq<char>,
}

impl View for FunctionCall {
    type V = FunctionCallView;

    open spec fn view(&self) -> FunctionCallView {
        FunctionCallView { name: self.name@, arguments: self.arguments@ }
    }
}

impl Clone for FunctionCall {
    fn clone(&self) -> (copy: Self)
        ensures
            copy@ == self@,
    {
        FunctionCall { name: self.name.clone(), arguments: self.arguments.clone() }
    }
}

/// A tool call of an assistant message (`type` is `call_type`).
#[derive(Debug)]
pub struct ToolCall {
    pub id: String,
    pub call_type: String,
    pub function: FunctionCall,
}

/// `ToolCall` over character sequences.
pub struct ToolCallView {
    pub id: Seq<char>,
    pub call_type: Seq<char>,
    pub function: FunctionCallView,
}

impl View for ToolCall {
    type V = ToolCallView;

    open spec fn view(&self) -> ToolCallView {
        ToolCallView { id: self.id@, call_type: self.call_type@, function: self.function@ }
    }
}

impl Clone for ToolCall {
    fn clone(&self) -> (copy: Self)
        ensures
            copy@ == self@,
    {
        ToolCall {
            id: self.id.clone(),
            call_type: self.call_type.clone(),
            function: self.function.clone(),
        }
    }
}

/// The views of a sequence of tool calls.
pub open spec fn tool_call_views(calls: Seq<ToolCall>) -> Seq<ToolCallView> {
    calls.map_values(|c: ToolCall| c@)
}

/// The view of an optional text.
pub open spec fn opt_text_view(text: Option<String>) -> Option<Seq<char>> {
    match text {
        Some(t) => Some(t@),
        None => None,
    }
}

/// The view of optional tool calls.
pub open spec fn opt_calls_view(calls: Option<Vec<ToolCall>>) -> Option<Seq<ToolCallView>> {
    match calls {
        Some(v) => Some(tool_call_views(v@)),
        None => None,
    }
}

/// A message of the chat-completions protocol (OpenAI / Albert function calling).
#[derive(Debug)]
pub struct ChatMessage {
    pub role: String,
    pub content: Option<String>,
    pub tool_calls: Option<Vec<ToolCall>>,
    pub tool_call_id: Option<String>,
}

/// `ChatMessage` over character sequences.
pub struct ChatMessageView {
    pub role: Seq<char>,
    pub content: Option<Seq<char>>,
    pub tool_calls: Option<Seq<ToolCallView>>,
    pub tool_call_id: Option<Seq<char>>,
}

impl View for ChatMessage {
    type V = ChatMessageView;

    open spec fn view(&self) -> ChatMessageView {
        ChatMessageView {
            role: self.role@,
            content: opt_text_view(self.content),
            tool_calls: opt_calls_view(self.tool_calls),
            tool_call_id: opt_text_view(self.tool_call_id),
        }
    }
}

/// A copy of an optional text.
pub fn copy_opt_text(text: &Option<String>) -> (copy: Option<String>)
    ensures
        opt_text_view(copy) == opt_text_view(*text),
{
    match text {
        Some(t) => Some(t.clone()),
        None => None,
    }
}

/// A copy of a list of tool calls.
pub fn copy_tool_calls(calls: &Vec<ToolCall>) -> (copy: Vec<ToolCall>)
    ensures
        tool_call_views(copy@) == tool_call_views(calls@),
{
    let mut copy: Vec<ToolCall> = Vec::new();
    let mut i: usize = 0;
    while i < calls.len()
        invariant
            i <= calls@.len(),
            tool_call_views(copy@) == tool_call_views(calls@.take(i as int)),
        decreases calls@.len() - i,
    {
        let ghost before = copy@;
        copy.push(calls[i].clone());
        proof {
            assert(tool_call_views(copy@) =~= tool_call_views(before).push(calls@[i as int]@));
            assert(tool_call_views(calls@.take(i + 1)) =~= tool_call_views(
                calls@.take(i as int),
            ).push(calls@[i as int]@));
        }
        i = i + 1;
    }
    proof {
        assert(calls@.take(calls@.len() as int) =~= calls@);
    }
    copy
}

impl Clone for ChatMessage {
    fn clone(&self) -> (copy: Self)
        ensures
            copy@ == self@,
    {
        let tool_calls = match &self.tool_calls {
            Some(calls) => Some(copy_tool_calls(calls)),
            None => None,
        };
        ChatMessage {
            role: self.role.clone(),
            content: copy_opt_text(&self.content),
            tool_calls,
            tool_call_id: copy_opt_text(&self.tool_call_id),
        }
    }
}

/// The body of a chat-completions response.
#[derive(Debug)]
pub struct ChatCompletionResponse {
    pub choices: Vec<Choice>,
}

/// One choice of a chat-completions response.
#[derive(Debug)]
pub struct Choice {
    pub message: ChatMessage,
}

/// The error of the arithmetic example tool.
#[derive(Debug)]
pub struct MathError(pub String);

impl MathError {
    /// The error's text: `Math execution error: ` and the detail.
    pub fn to_message(&self) -> (text: String)
        ensures
            text@ == "Math execution error: "@ + self.0@,
    {
        concat("Math execution error: ", self.0.as_str())
    }
}

/// Arguments of the addition example tool.
#[allow(dead_code)]
pub struct AddArgs {
    x: i32,
    y: i32,
}

/// Arguments of the file-reading example tool.
pub struct PathArgs {
    pub path: String,
}

/// The addition example tool.
pub struct Adder;

/// The file-reading example tool.
pub struct ReadFile;

} // verus!
