# rustagent

The verified core of a coding assistant's back end, written with Verus.

- `src/` is the library, proved by Verus:
  - `api`: classification of completion-API errors, the retry backoff, the
    chat history sent to the model, and the chat-completions message types;
  - `retry`: the retry policies of plain and streamed completion requests,
    as state machines (attempt budget, cancellation, mid-stream failures);
  - `sse`: the framing of a server-sent event stream into `data:` payloads
    and the assembly of streamed text and tool-call fragments;
  - `agent`: the multi-turn tool-calling loop as a state machine, and the
    cut of large tool outputs;
  - `mcp`: matching JSON-RPC replies to requests and turning tool results
    into text;
  - `platform`: per-system shell, toolchain and configuration-directory choices;
  - `text`: whitespace trimming, prefix and substring tests.
- `app/` drives the state machines with the real I/O: `reqwest` for HTTP,
  `tokio` for timers and the MCP server process, `serde_json` for JSON, and
  the `rig` tool adapter.
- `tests/` runs the library on concrete scenarios.
