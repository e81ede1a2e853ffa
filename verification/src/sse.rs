//! Decoding of a streamed (server-sent events) completion reply: the framing
//! of the byte stream into `data:` payloads, and the assembly of the text and
//! tool-call fragments that the payloads carry into one assistant turn.
use vstd::prelude::*;
use vstd::string::*;
use crate::api::{ChatMessage, ChatMessageView, FunctionCall, FunctionCallView, ToolCall, ToolCallView, tool_call_views};
use crate::json::{array_items, json_items, json_member, json_parse, json_str, json_u64, member, parse_json_value, str_value, u64_value};
use crate::text::{chars_of, concat, starts_with, starts_with_text, suffix_from, trim, trimmed};

verus! {

/// Position of the first line feed in `s`, if there is one.
pub open spec fn find_newline(s: Seq<char>) -> Option<int>
    decreases s.len(),
{
    if s.len() == 0 {
        None
    } else if s[0] == '\n' {
        Some(0)
    } else {
        match find_newline(s.drop_first()) {
            Some(k) => Some(k + 1),
            None => None,
        }
    }
}

/// The payload marker that opens a data line.
pub open spec fn data_marker() -> Seq<char> {
    "data: "@
}

/// The payload that closes the stream.
pub open spec fn done_marker() -> Seq<char> {
    "[DONE]"@
}

/// The complete lines at the front of `buffer`, taken one by one: each is
/// trimmed; a line that starts with `data: ` gives its trimmed payload, other
/// lines are skipped; a `[DONE]` payload stops the taking. The result is the
/// payloads taken and what is left of the buffer.
pub open spec fn drain_events(buffer: Seq<char>) -> (Seq<Seq<char>>, Seq<char>)
    decreases buffer.len(),
{
    match find_newline(buffer) {
        Some(p) => if 0 <= p < buffer.len() {
            let line = trimmed(buffer.take(p));
            let rest = buffer.skip(p + 1);
            if starts_with_text(line, data_marker()) {
                let data = trimmed(line.skip(6));
                if data == done_marker() {
                    (Seq::empty(), rest)
                } else {
                    let (more, left) = drain_events(rest);
                    (seq![data] + more, left)
                }
            } else {
                drain_events(rest)
            }
        } else {
            (Seq::empty(), buffer)
        },
        None => (Seq::empty(), buffer),
    }
}

proof fn lemma_find_newline_at(s: Seq<char>, k: int)
    requires
        0 <= k < s.len(),
        s[k] == '\n',
        forall|j: int| 0 <= j < k ==> s[j] != '\n',
    ensures
        find_newline(s) == Some(k),
    decreases k,
{
    if k > 0 {
        let t = s.drop_first();
        assert forall|j: int| 0 <= j < k - 1 implies t[j] != '\n' by {
            assert(t[j] == s[j + 1]);
        }
        lemma_find_newline_at(t, k - 1);
    }
}

proof fn lemma_find_newline_none(s: Seq<char>)
    requires
        forall|j: int| 0 <= j < s.len() ==> s[j] != '\n',
    ensures
        find_newline(s) == None::<int>,
    decreases s.len(),
{
    if s.len() > 0 {
        let t = s.drop_first();
        assert forall|j: int| 0 <= j < t.len() implies t[j] != '\n' by {
            assert(t[j] == s[j + 1]);
        }
        lemma_find_newline_none(t);
    }
}

/// Whether taking the lines of `buffer` stops at a `[DONE]` payload (rather
/// than at the end of the complete lines).
pub open spec fn drain_stops_at_done(buffer: Seq<char>) -> bool
    decreases buffer.len(),
{
    match find_newline(buffer) {
        Some(p) => if 0 <= p < buffer.len() {
            let line = trimmed(buffer.take(p));
            let rest = buffer.skip(p + 1);
            if starts_with_text(line, data_marker()) && trimmed(line.skip(6)) == done_marker() {
                true
            } else {
                drain_stops_at_done(rest)
            }
        } else {
            false
        },
        None => false,
    }
}

/// A line feed found in a text is found at the same place once more text follows.
proof fn lemma_find_newline_append(a: Seq<char>, t: Seq<char>)
    ensures
        find_newline(a) matches Some(p) ==> 0 <= p < a.len() && find_newline(a + t) == Some(p),
    decreases a.len(),
{
    if a.len() > 0 {
        assert((a + t)[0] == a[0]);
        if a[0] != '\n' {
            assert((a + t).drop_first() =~= a.drop_first() + t);
            lemma_find_newline_append(a.drop_first(), t);
        }
    }
}

/// When taking the lines of `a` does not stop at `[DONE]`, taking the lines
/// of `a` followed by `t` gives the payloads of `a`, then those of what was
/// left of `a` followed by `t`.
pub proof fn lemma_drain_append(a: Seq<char>, t: Seq<char>)
    requires
        !drain_stops_at_done(a),
    ensures
        drain_events(a + t) == (
            drain_events(a).0 + drain_events(drain_events(a).1 + t).0,
            drain_events(drain_events(a).1 + t).1,
        ),
    decreases a.len(),
{
    lemma_find_newline_append(a, t);
    match find_newline(a) {
        Some(p) => {
            let at = a + t;
            assert(at.take(p) =~= a.take(p));
            assert(at.skip(p + 1) =~= a.skip(p + 1) + t);
            let line = trimmed(a.take(p));
            let rest = a.skip(p + 1);
            lemma_drain_append(rest, t);
            if starts_with_text(line, data_marker()) {
                let data = trimmed(line.skip(6));
                let (more, left) = drain_events(rest);
                assert(seq![data] + more + drain_events(left + t).0 =~= seq![data] + (more
                    + drain_events(left + t).0));
            }
        },
        None => {
            assert(drain_events(a).0 + drain_events(a + t).0 =~= drain_events(a + t).0);
        },
    }
}

/// The payloads do not depend on how the text is cut into received pieces:
/// receiving `t1` then `t2` gives the payloads and the leftover of receiving
/// `t1` and `t2` at once, as long as the first piece does not end the stream
/// with `[DONE]`.
pub proof fn lemma_pieces_do_not_matter(buffer: Seq<char>, t1: Seq<char>, t2: Seq<char>)
    requires
        !drain_stops_at_done(buffer + t1),
    ensures
        ({
            let (first, left) = drain_events(buffer + t1);
            let (second, last) = drain_events(left + t2);
            drain_events(buffer + t1 + t2) == (first + second, last)
        }),
{
    lemma_drain_append(buffer + t1, t2);
    assert(buffer + t1 + t2 =~= (buffer + t1) + t2);
}

/// What `String::from_utf8_lossy` gives for a byte sequence.
pub uninterp spec fn utf8_lossy(bytes: Seq<u8>) -> Seq<char>;

/// Calls `String::from_utf8_lossy`: valid UTF-8 is decoded as it is, each
/// invalid sequence becomes U+FFFD; the result is named by `utf8_lossy`.
#[verifier::external_body]
fn decode_lossy(bytes: &[u8]) -> (text: String)
    ensures
        text@ == utf8_lossy(bytes@),
        vstd::utf8::valid_utf8(bytes@) ==> text@ == vstd::utf8::decode_utf8(bytes@),
{
    String::from_utf8_lossy(bytes).into_owned()
}

/// Whether two texts are equal.
fn same_text(a: &str, b: &str) -> (eq: bool)
    ensures
        eq == (a@ == b@),
{
    let same = a.unicode_len() == b.unicode_len() && starts_with(a, b);
    proof {
        assert(a@.take(a@.len() as int) =~= a@);
    }
    same
}

/// The line framing of a server-sent event stream.
pub struct SseDecoder {
    buffer: String,
}

impl View for SseDecoder {
    type V = Seq<char>;

    closed spec fn view(&self) -> Seq<char> {
        self.buffer@
    }
}

impl SseDecoder {
    /// A decoder with nothing buffered.
    pub fn new() -> (d: SseDecoder)
        ensures
            d@ == Seq::<char>::empty(),
    {
        SseDecoder { buffer: String::new() }
    }

    /// The text received and not yet taken as lines.
    pub fn pending(&self) -> (text: &str)
        ensures
            text@ == self@,
    {
        self.buffer.as_str()
    }

    /// Appends received text to the buffer and takes the complete lines at
    /// its front: the payloads of the `data: ` lines, in order, until a
    /// `[DONE]` payload; what follows stays buffered for the next text.
    pub fn push_text(&mut self, text: &str) -> (payloads: Vec<String>)
        ensures
            payloads@.map_values(|p: String| p@) == drain_events(old(self)@ + text@).0,
            final(self)@ == drain_events(old(self)@ + text@).1,
    {
        let all = concat(self.buffer.as_str(), text);
        let v = chars_of(all.as_str());
        let ghost full = all@;
        let n = v.len();
        let mut out: Vec<String> = Vec::new();
        let mut start: usize = 0;
        let mut done = false;
        proof {
            assert(full.skip(0) =~= full);
            assert(out@.map_values(|p: String| p@) + drain_events(full).0 =~= drain_events(full).0);
        }
        while !done
            invariant
                v@ == full,
                all@ == full,
                n == v.len(),
                start <= n,
                !done ==> drain_events(full) == (
                    out@.map_values(|p: String| p@) + drain_events(full.skip(start as int)).0,
                    drain_events(full.skip(start as int)).1,
                ),
                done ==> drain_events(full) == (
                    out@.map_values(|p: String| p@),
                    full.skip(start as int),
                ),
            decreases n - start + (if done { 0int } else { 1int }),
        {
            let ghost rest = full.skip(start as int);
            let mut k: usize = start;
            while k < n && v[k] != '\n'
                invariant
                    start <= k <= n == v.len(),
                    forall|j: int| start <= j < k ==> v@[j] != '\n',
                decreases n - k,
            {
                k = k + 1;
            }
            if k == n {
                proof {
                    assert forall|j: int| 0 <= j < rest.len() implies rest[j] != '\n' by {
                        assert(rest[j] == v@[j + start]);
                    }
                    lemma_find_newline_none(rest);
                }
                done = true;
            } else {
                proof {
                    assert forall|j: int| 0 <= j < k - start implies rest[j] != '\n' by {
                        assert(rest[j] == v@[j + start]);
                    }
                    assert(rest[k - start] == v@[k as int]);
                    lemma_find_newline_at(rest, k - start);
                    assert(rest.take(k - start) =~= full.subrange(start as int, k as int));
                    assert(rest.skip(k - start + 1) =~= full.skip(k + 1));
                }
                let line = trim(all.as_str().substring_char(start, k));
                let ghost before = out@;
                if starts_with(line.as_str(), "data: ") {
                    proof {
                        reveal_strlit("data: ");
                    }
                    let data = trim(suffix_from(line.as_str(), 6).as_str());
                    if same_text(data.as_str(), "[DONE]") {
                        done = true;
                    } else {
                        out.push(data);
                        proof {
                            assert(out@.map_values(|p: String| p@) =~= before.map_values(
                                |p: String| p@,
                            ) + seq![data@]);
                        }
                    }
                }
                start = k + 1;
                proof {
                    if !done {
                        assert(out@.map_values(|p: String| p@) + drain_events(
                            full.skip(start as int),
                        ).0 =~= before.map_values(|p: String| p@) + drain_events(rest).0);
                    }
                }
            }
        }
        self.buffer = suffix_from(all.as_str(), start);
        out
    }

    /// Decodes received bytes (invalid UTF-8 becomes U+FFFD) and takes the
    /// complete lines, as `push_text` does with the decoded text.
    pub fn push_bytes(&mut self, bytes: &[u8]) -> (payloads: Vec<String>)
        ensures
            payloads@.map_values(|p: String| p@) == drain_events(
                old(self)@ + utf8_lossy(bytes@),
            ).0,
            final(self)@ == drain_events(old(self)@ + utf8_lossy(bytes@)).1,
    {
        let text = decode_lossy(bytes);
        self.push_text(text.as_str())
    }
}

/// A fragment of a tool call carried by one streamed payload.
pub struct ToolCallDelta {
    /// The slot the fragment belongs to (slot 0 when absent).
    pub index: Option<u64>,
    /// A piece of the call's id.
    pub id: Option<String>,
    /// A piece of the function's name.
    pub name: Option<String>,
    /// A piece of the function's JSON arguments.
    pub arguments: Option<String>,
}

/// `ToolCallDelta` over character sequences.
pub struct ToolCallDeltaView {
    pub index: Option<u64>,
    pub id: Option<Seq<char>>,
    pub name: Option<Seq<char>>,
    pub arguments: Option<Seq<char>>,
}

impl View for ToolCallDelta {
    type V = ToolCallDeltaView;

    open spec fn view(&self) -> ToolCallDeltaView {
        ToolCallDeltaView {
            index: self.index,
            id: crate::api::opt_text_view(self.id),
            name: crate::api::opt_text_view(self.name),
            arguments: crate::api::opt_text_view(self.arguments),
        }
    }
}

/// What one streamed payload carries: a piece of text and tool-call fragments.
pub struct StreamDelta {
    pub content: Option<String>,
    pub tool_calls: Vec<ToolCallDelta>,
}

/// The views of a sequence of fragments.
pub open spec fn delta_views(ds: Seq<ToolCallDelta>) -> Seq<ToolCallDeltaView> {
    ds.map_values(|d: ToolCallDelta| d@)
}

/// The text of a member, when it is a string.
pub open spec fn member_text(v: serde_json::Value, key: Seq<char>) -> Option<Seq<char>> {
    match json_member(v, key) {
        Some(m) => json_str(m),
        None => None,
    }
}

/// The text of a member of a call's `function`, when it is a string.
pub open spec fn function_text(call: serde_json::Value, key: Seq<char>) -> Option<Seq<char>> {
    match json_member(call, "function"@) {
        Some(f) => member_text(f, key),
        None => None,
    }
}

/// The `delta` of the first choice of a payload, when the payload is JSON
/// holding one.
pub open spec fn payload_delta(data: Seq<char>) -> Option<serde_json::Value> {
    match json_parse(data) {
        Some(p) => match json_member(p, "choices"@) {
            Some(c) => match json_items(c) {
                Some(items) => if items.len() > 0 {
                    json_member(items[0], "delta"@)
                } else {
                    None
                },
                None => None,
            },
            None => None,
        },
        None => None,
    }
}

/// The fragment that a tool call of a delta carries: its `index` (when an
/// unsigned integer), its `id`, and its function's `name` and `arguments`
/// (each when a string).
pub open spec fn fragment_of(call: serde_json::Value) -> ToolCallDeltaView {
    ToolCallDeltaView {
        index: match json_member(call, "index"@) {
            Some(i) => json_u64(i),
            None => None,
        },
        id: member_text(call, "id"@),
        name: function_text(call, "name"@),
        arguments: function_text(call, "arguments"@),
    }
}

/// The fragments of a delta's `tool_calls` array, in order (none when absent
/// or not an array).
pub open spec fn fragments_of(delta: serde_json::Value) -> Seq<ToolCallDeltaView> {
    match json_member(delta, "tool_calls"@) {
        Some(t) => match json_items(t) {
            Some(items) => items.map_values(|c: serde_json::Value| fragment_of(c)),
            None => Seq::empty(),
        },
        None => Seq::empty(),
    }
}

/// The text of a member of a value, when it is a string.
fn text_member(v: &serde_json::Value, key: &str) -> (t: Option<String>)
    ensures
        crate::api::opt_text_view(t) == member_text(*v, key@),
{
    match member(v, key) {
        Some(m) => str_value(&m),
        None => None,
    }
}

/// The text of a member of a call's function, when it is a string.
fn function_member(call: &serde_json::Value, key: &str) -> (t: Option<String>)
    ensures
        crate::api::opt_text_view(t) == function_text(*call, key@),
{
    match member(call, "function") {
        Some(f) => text_member(&f, key),
        None => None,
    }
}

/// Decodes one `data:` payload of the stream: when it is JSON whose first
/// choice has a `delta`, the delta's text (`content`, when a string) and its
/// tool-call fragments; otherwise nothing.
pub fn stream_delta(data: &str) -> (d: Option<StreamDelta>)
    ensures
        d is None <==> payload_delta(data@) is None,
        d matches Some(sd) ==> (payload_delta(data@) matches Some(delta)
            && crate::api::opt_text_view(sd.content) == member_text(delta, "content"@)
            && delta_views(sd.tool_calls@) == fragments_of(delta)),
{
    let parsed = match parse_json_value(data) {
        Some(p) => p,
        None => return None,
    };
    let choices = match member(&parsed, "choices") {
        Some(c) => c,
        None => return None,
    };
    let items = match array_items(&choices) {
        Some(items) => items,
        None => return None,
    };
    if items.len() == 0 {
        return None;
    }
    let delta = match member(&items[0], "delta") {
        Some(delta) => delta,
        None => return None,
    };
    let content = text_member(&delta, "content");
    let mut tool_calls: Vec<ToolCallDelta> = Vec::new();
    let ghost expected = fragments_of(delta);
    let calls = match member(&delta, "tool_calls") {
        Some(t) => array_items(&t),
        None => None,
    };
    match calls {
        Some(calls) => {
            let mut i: usize = 0;
            while i < calls.len()
                invariant
                    i <= calls@.len(),
                    expected == calls@.map_values(|c: serde_json::Value| fragment_of(c)),
                    delta_views(tool_calls@) == expected.take(i as int),
                decreases calls@.len() - i,
            {
                let call = &calls[i];
                let index = match member(call, "index") {
                    Some(x) => u64_value(&x),
                    None => None,
                };
                let fragment = ToolCallDelta {
                    index,
                    id: text_member(call, "id"),
                    name: function_member(call, "name"),
                    arguments: function_member(call, "arguments"),
                };
                let ghost before = tool_calls@;
                tool_calls.push(fragment);
                proof {
                    assert(delta_views(tool_calls@) =~= delta_views(before).push(fragment@));
                    assert(expected.take(i + 1) =~= expected.take(i as int).push(
                        fragment_of(calls@[i as int]),
                    ));
                }
                i = i + 1;
            }
            proof {
                assert(expected.take(calls@.len() as int) =~= expected);
            }
        },
        None => {
            assert(delta_views(tool_calls@) =~= expected);
        },
    }
    Some(StreamDelta { content, tool_calls })
}

/// A tool call being assembled from fragments.
pub struct PartialToolCall {
    pub index: usize,
    pub id: String,
    pub name: String,
    pub arguments: String,
}

/// `PartialToolCall` over character sequences.
pub struct PartialToolCallView {
    pub index: usize,
    pub id: Seq<char>,
    pub name: Seq<char>,
    pub arguments: Seq<char>,
}

impl View for PartialToolCall {
    type V = PartialToolCallView;

    open spec fn view(&self) -> PartialToolCallView {
        PartialToolCallView {
            index: self.index,
            id: self.id@,
            name: self.name@,
            arguments: self.arguments@,
        }
    }
}

/// The views of a sequence of partial calls.
pub open spec fn partial_views(cs: Seq<PartialToolCall>) -> Seq<PartialToolCallView> {
    cs.map_values(|c: PartialToolCall| c@)
}

/// An optional text, or nothing.
pub open spec fn text_or_empty(t: Option<Seq<char>>) -> Seq<char> {
    match t {
        Some(s) => s,
        None => Seq::empty(),
    }
}

/// The slot of a fragment: its index as a `usize`, slot 0 when absent.
pub open spec fn delta_slot(d: ToolCallDeltaView) -> usize {
    match d.index {
        Some(i) => i as usize,
        None => 0,
    }
}

/// A call extended by a fragment: each present piece is appended.
pub open spec fn extend_call(c: PartialToolCallView, d: ToolCallDeltaView) -> PartialToolCallView {
    PartialToolCallView {
        index: c.index,
        id: c.id + text_or_empty(d.id),
        name: c.name + text_or_empty(d.name),
        arguments: c.arguments + text_or_empty(d.arguments),
    }
}

/// The call that a fragment of a new slot starts.
pub open spec fn fresh_call(d: ToolCallDeltaView) -> PartialToolCallView {
    extend_call(
        PartialToolCallView {
            index: delta_slot(d),
            id: Seq::empty(),
            name: Seq::empty(),
            arguments: Seq::empty(),
        },
        d,
    )
}

/// The calls, ordered by slot, after one more fragment: the call of the
/// fragment's slot is extended, or started in its place in the order.
pub open spec fn merge_fragment(calls: Seq<PartialToolCallView>, d: ToolCallDeltaView) -> Seq<
    PartialToolCallView,
>
    decreases calls.len(),
{
    let slot = delta_slot(d);
    if calls.len() == 0 {
        seq![fresh_call(d)]
    } else if calls[0].index == slot {
        calls.update(0, extend_call(calls[0], d))
    } else if calls[0].index > slot {
        seq![fresh_call(d)] + calls
    } else {
        seq![calls[0]] + merge_fragment(calls.drop_first(), d)
    }
}

/// The calls after a sequence of fragments, taken in order.
pub open spec fn merge_fragments(calls: Seq<PartialToolCallView>, ds: Seq<ToolCallDeltaView>) -> Seq<
    PartialToolCallView,
>
    decreases ds.len(),
{
    if ds.len() == 0 {
        calls
    } else {
        merge_fragment(merge_fragments(calls, ds.drop_last()), ds.last())
    }
}

/// The calls are ordered by slot, one per slot.
pub open spec fn sorted_slots(calls: Seq<PartialToolCallView>) -> bool {
    forall|i: int, j: int| 0 <= i < j < calls.len() ==> calls[i].index < calls[j].index
}

/// The call of a slot, if the calls hold one.
pub open spec fn call_in_slot(calls: Seq<PartialToolCallView>, slot: usize) -> Option<
    PartialToolCallView,
>
    decreases calls.len(),
{
    if calls.len() == 0 {
        None
    } else if calls[0].index == slot {
        Some(calls[0])
    } else {
        call_in_slot(calls.drop_first(), slot)
    }
}

/// The text emitted for a payload's text piece: the piece, when not empty.
pub open spec fn emitted_text(content: Option<Seq<char>>) -> Option<Seq<char>> {
    match content {
        Some(c) => if c.len() > 0 {
            Some(c)
        } else {
            None
        },
        None => None,
    }
}

/// Merging a fragment into sorted calls is extending the call of its slot or
/// inserting a new call before the first larger slot.
proof fn lemma_merge_at(calls: Seq<PartialToolCallView>, d: ToolCallDeltaView, p: int)
    requires
        sorted_slots(calls),
        0 <= p <= calls.len(),
        forall|j: int| 0 <= j < p ==> calls[j].index < delta_slot(d),
        p == calls.len() || calls[p].index >= delta_slot(d),
    ensures
        merge_fragment(calls, d) == if p < calls.len() && calls[p].index == delta_slot(d) {
            calls.update(p, extend_call(calls[p], d))
        } else {
            calls.insert(p, fresh_call(d))
        },
    decreases p,
{
    if p == 0 {
        if calls.len() > 0 && calls[0].index != delta_slot(d) {
            assert(seq![fresh_call(d)] + calls =~= calls.insert(0, fresh_call(d)));
        }
        if calls.len() == 0 {
            assert(seq![fresh_call(d)] =~= calls.insert(0, fresh_call(d)));
        }
    } else {
        let t = calls.drop_first();
        assert forall|i: int, j: int| 0 <= i < j < t.len() implies t[i].index < t[j].index by {
            assert(t[i] == calls[i + 1] && t[j] == calls[j + 1]);
        }
        assert forall|j: int| 0 <= j < p - 1 implies t[j].index < delta_slot(d) by {
            assert(t[j] == calls[j + 1]);
        }
        if p < calls.len() {
            assert(t[p - 1] == calls[p]);
        }
        lemma_merge_at(t, d, p - 1);
        if p < calls.len() && calls[p].index == delta_slot(d) {
            assert(seq![calls[0]] + t.update(p - 1, extend_call(calls[p], d)) =~= calls.update(
                p,
                extend_call(calls[p], d),
            ));
        } else {
            assert(seq![calls[0]] + t.insert(p - 1, fresh_call(d)) =~= calls.insert(
                p,
                fresh_call(d),
            ));
        }
    }
}

/// Merging a fragment keeps the calls ordered by slot, one per slot.
pub proof fn lemma_merge_keeps_sorted(calls: Seq<PartialToolCallView>, d: ToolCallDeltaView)
    requires
        sorted_slots(calls),
    ensures
        sorted_slots(merge_fragment(calls, d)),
{
    let p = first_slot_at_least(calls, delta_slot(d));
    lemma_merge_at(calls, d, p);
}

/// The position of the first call whose slot is at least `slot`.
proof fn first_slot_at_least(calls: Seq<PartialToolCallView>, slot: usize) -> (p: int)
    ensures
        0 <= p <= calls.len(),
        forall|j: int| 0 <= j < p ==> calls[j].index < slot,
        p == calls.len() || calls[p].index >= slot,
    decreases calls.len(),
{
    if calls.len() == 0 || calls[0].index >= slot {
        0
    } else {
        let q = first_slot_at_least(calls.drop_first(), slot);
        assert forall|j: int| 0 <= j < q + 1 implies calls[j].index < slot by {
            if j > 0 {
                assert(calls[j] == calls.drop_first()[j - 1]);
            }
        }
        if q < calls.drop_first().len() {
            assert(calls[q + 1] == calls.drop_first()[q]);
        }
        q + 1
    }
}

/// A fragment extends the call of its own slot (starting it empty when the
/// slot is new) and leaves the call of every other slot unchanged.
pub proof fn lemma_merge_fragment_slots(
    calls: Seq<PartialToolCallView>,
    d: ToolCallDeltaView,
    other: usize,
)
    requires
        sorted_slots(calls),
    ensures
        call_in_slot(merge_fragment(calls, d), delta_slot(d)) == Some(
            match call_in_slot(calls, delta_slot(d)) {
                Some(c) => extend_call(c, d),
                None => fresh_call(d),
            },
        ),
        other != delta_slot(d) ==> call_in_slot(merge_fragment(calls, d), other) == call_in_slot(
            calls,
            other,
        ),
    decreases calls.len(),
{
    let slot = delta_slot(d);
    if calls.len() == 0 {
        let m = seq![fresh_call(d)];
        assert(m.drop_first() =~= Seq::<PartialToolCallView>::empty());
        assert(call_in_slot(m.drop_first(), other) == None::<PartialToolCallView>);
    } else if calls[0].index == slot {
        let m = calls.update(0, extend_call(calls[0], d));
        assert(m.drop_first() =~= calls.drop_first());
        assert(m[0].index == slot);
        if other != slot {
            assert(call_in_slot(m, other) == call_in_slot(m.drop_first(), other));
            assert(call_in_slot(calls, other) == call_in_slot(calls.drop_first(), other));
        }
    } else if calls[0].index > slot {
        let m = seq![fresh_call(d)] + calls;
        assert(m.drop_first() =~= calls);
        if other != slot {
            assert(call_in_slot(m, other) == call_in_slot(calls, other));
        }
        lemma_slot_absent(calls, slot);
    } else {
        let t = calls.drop_first();
        assert forall|i: int, j: int| 0 <= i < j < t.len() implies t[i].index < t[j].index by {
            assert(t[i] == calls[i + 1] && t[j] == calls[j + 1]);
        }
        lemma_merge_fragment_slots(t, d, other);
        let m = seq![calls[0]] + merge_fragment(t, d);
        assert(m.drop_first() =~= merge_fragment(t, d));
    }
}

/// No call holds a slot smaller than the first slot of sorted calls.
proof fn lemma_slot_absent(calls: Seq<PartialToolCallView>, slot: usize)
    requires
        sorted_slots(calls),
        calls.len() > 0,
        calls[0].index > slot,
    ensures
        call_in_slot(calls, slot) == None::<PartialToolCallView>,
    decreases calls.len(),
{
    let t = calls.drop_first();
    if t.len() > 0 {
        assert forall|i: int, j: int| 0 <= i < j < t.len() implies t[i].index < t[j].index by {
            assert(t[i] == calls[i + 1] && t[j] == calls[j + 1]);
        }
        assert(t[0] == calls[1]);
        lemma_slot_absent(t, slot);
    } else {
        assert(call_in_slot(t, slot) == None::<PartialToolCallView>);
    }
    assert(call_in_slot(calls, slot) == call_in_slot(t, slot));
}

/// The text and the tool calls of one streamed assistant turn.
pub struct StreamTurn {
    content: String,
    calls: Vec<PartialToolCall>,
}

/// `StreamTurn` over character sequences.
pub struct StreamTurnView {
    /// The text received so far.
    pub content: Seq<char>,
    /// The tool calls, ordered by slot.
    pub calls: Seq<PartialToolCallView>,
}

impl View for StreamTurn {
    type V = StreamTurnView;

    closed spec fn view(&self) -> StreamTurnView {
        StreamTurnView { content: self.content@, calls: partial_views(self.calls@) }
    }
}

/// The assistant message of a finished turn: its text (none when empty) and
/// its tool calls (none when there are none), in slot order.
pub open spec fn turn_message(t: StreamTurnView) -> ChatMessageView {
    ChatMessageView {
        role: "assistant"@,
        content: if t.content.len() == 0 {
            None
        } else {
            Some(t.content)
        },
        tool_calls: if t.calls.len() == 0 {
            None
        } else {
            Some(t.calls.map_values(|c: PartialToolCallView| turn_tool_call(c)))
        },
        tool_call_id: None,
    }
}

/// The tool call that an assembled call becomes.
pub open spec fn turn_tool_call(c: PartialToolCallView) -> ToolCallView {
    ToolCallView {
        id: c.id,
        call_type: "function"@,
        function: FunctionCallView { name: c.name, arguments: c.arguments },
    }
}

/// `text` extended by the optional piece.
fn append_piece(text: &mut String, piece: &Option<String>)
    ensures
        final(text)@ == old(text)@ + text_or_empty(crate::api::opt_text_view(*piece)),
{
    match piece {
        Some(p) => text.append(p.as_str()),
        None => {
            assert(old(text)@ + Seq::<char>::empty() =~= old(text)@);
        },
    }
}

impl StreamTurn {
    /// The turn's invariant: calls ordered by slot, one per slot.
    pub open spec fn wf(&self) -> bool {
        sorted_slots(self@.calls)
    }

    /// An empty turn.
    pub fn new() -> (t: StreamTurn)
        ensures
            t.wf(),
            t@.content == Seq::<char>::empty(),
            t@.calls == Seq::<PartialToolCallView>::empty(),
    {
        let t = StreamTurn { content: String::new(), calls: Vec::new() };
        assert(partial_views(t.calls@) =~= Seq::<PartialToolCallView>::empty());
        t
    }

    /// The text received so far.
    pub fn content(&self) -> (text: &String)
        ensures
            text@ == self@.content,
    {
        &self.content
    }

    /// Whether the turn asks for tool calls.
    pub fn has_tool_calls(&self) -> (b: bool)
        ensures
            b == (self@.calls.len() > 0),
    {
        self.calls.len() > 0
    }

    fn merge(&mut self, d: &ToolCallDelta)
        requires
            old(self).wf(),
        ensures
            final(self).wf(),
            final(self)@.content == old(self)@.content,
            final(self)@.calls == merge_fragment(old(self)@.calls, d@),
    {
        let slot: usize = match d.index {
            Some(i) => i as usize,
            None => 0,
        };
        let ghost old_calls = self@.calls;
        let n = self.calls.len();
        let mut p: usize = 0;
        while p < n && self.calls[p].index < slot
            invariant
                p <= n == self.calls@.len(),
                partial_views(self.calls@) == old_calls,
                forall|j: int| 0 <= j < p ==> old_calls[j].index < slot,
            decreases n - p,
        {
            p = p + 1;
        }
        proof {
            if p < n {
                assert(old_calls[p as int] == self.calls@[p as int]@);
            }
            lemma_merge_at(old_calls, d@, p as int);
            lemma_merge_keeps_sorted(old_calls, d@);
        }
        if p < n && self.calls[p].index == slot {
            let current = &self.calls[p];
            let mut id = current.id.clone();
            let mut name = current.name.clone();
            let mut arguments = current.arguments.clone();
            append_piece(&mut id, &d.id);
            append_piece(&mut name, &d.name);
            append_piece(&mut arguments, &d.arguments);
            let updated = PartialToolCall { index: slot, id, name, arguments };
            self.calls.set(p, updated);
            proof {
                assert(partial_views(self.calls@) =~= old_calls.update(
                    p as int,
                    extend_call(old_calls[p as int], d@),
                ));
            }
        } else {
            let mut id = String::new();
            let mut name = String::new();
            let mut arguments = String::new();
            append_piece(&mut id, &d.id);
            append_piece(&mut name, &d.name);
            append_piece(&mut arguments, &d.arguments);
            let fresh = PartialToolCall { index: slot, id, name, arguments };
            self.calls.insert(p, fresh);
            proof {
                assert(partial_views(self.calls@) =~= old_calls.insert(p as int, fresh_call(d@)));
            }
        }
    }

    /// Takes one streamed payload: a non-empty text piece is appended to the
    /// turn's text and handed back for display; each tool-call fragment, in
    /// order, extends the call of its slot or starts it.
    pub fn apply_delta(&mut self, delta: &StreamDelta) -> (emitted: Option<String>)
        requires
            old(self).wf(),
        ensures
            final(self).wf(),
            final(self)@.content == old(self)@.content + text_or_empty(
                emitted_text(crate::api::opt_text_view(delta.content)),
            ),
            crate::api::opt_text_view(emitted) == emitted_text(
                crate::api::opt_text_view(delta.content),
            ),
            final(self)@.calls == merge_fragments(old(self)@.calls, delta_views(delta.tool_calls@)),
    {
        let mut emitted: Option<String> = None;
        match &delta.content {
            Some(c) => {
                if !c.as_str().is_empty() {
                    self.content.append(c.as_str());
                    emitted = Some(c.clone());
                } else {
                    assert(self.content@ + Seq::<char>::empty() =~= self.content@);
                }
            },
            None => {
                assert(self.content@ + Seq::<char>::empty() =~= self.content@);
            },
        }
        let ghost start_calls = self@.calls;
        let mut i: usize = 0;
        while i < delta.tool_calls.len()
            invariant
                i <= delta.tool_calls@.len(),
                self.wf(),
                self@.content == old(self)@.content + text_or_empty(
                    emitted_text(crate::api::opt_text_view(delta.content)),
                ),
                start_calls == old(self)@.calls,
                self@.calls == merge_fragments(
                    start_calls,
                    delta_views(delta.tool_calls@.take(i as int)),
                ),
            decreases delta.tool_calls@.len() - i,
        {
            self.merge(&delta.tool_calls[i]);
            proof {
                let ds = delta_views(delta.tool_calls@.take(i + 1));
                assert(ds.drop_last() =~= delta_views(delta.tool_calls@.take(i as int)));
                assert(ds.last() == delta.tool_calls@[i as int]@);
            }
            i = i + 1;
        }
        proof {
            assert(delta.tool_calls@.take(delta.tool_calls@.len() as int) =~= delta.tool_calls@);
        }
        emitted
    }

    /// The tool calls of the turn, in slot order.
    pub fn tool_calls(&self) -> (calls: Vec<ToolCall>)
        ensures
            tool_call_views(calls@) == self@.calls.map_values(
                |c: PartialToolCallView| turn_tool_call(c),
            ),
    {
        let mut calls: Vec<ToolCall> = Vec::new();
        let mut i: usize = 0;
        while i < self.calls.len()
            invariant
                i <= self.calls@.len(),
                tool_call_views(calls@) == partial_views(self.calls@.take(i as int)).map_values(
                    |c: PartialToolCallView| turn_tool_call(c),
                ),
            decreases self.calls@.len() - i,
        {
            let c = &self.calls[i];
            let call = ToolCall {
                id: c.id.clone(),
                call_type: String::from_str("function"),
                function: FunctionCall { name: c.name.clone(), arguments: c.arguments.clone() },
            };
            let ghost before = calls@;
            calls.push(call);
            proof {
                assert(tool_call_views(calls@) =~= tool_call_views(before).push(call@));
                assert(partial_views(self.calls@.take(i + 1)).map_values(
                    |c: PartialToolCallView| turn_tool_call(c),
                ) =~= partial_views(self.calls@.take(i as int)).map_values(
                    |c: PartialToolCallView| turn_tool_call(c),
                ).push(turn_tool_call(self.calls@[i as int]@)));
            }
            i = i + 1;
        }
        proof {
            assert(self.calls@.take(self.calls@.len() as int) =~= self.calls@);
        }
        calls
    }

    /// The assistant message of the finished turn.
    pub fn assistant_message(&self) -> (message: ChatMessage)
        ensures
            message@ == turn_message(self@),
    {
        let content = if self.content.as_str().is_empty() {
            None
        } else {
            Some(self.content.clone())
        };
        let tool_calls = if self.calls.len() == 0 {
            None
        } else {
            Some(self.tool_calls())
        };
        ChatMessage {
            role: String::from_str("assistant"),
            content,
            tool_calls,
            tool_call_id: None,
        }
    }
}

} // verus!
