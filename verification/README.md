# codex_mini_demo

A small terminal coding agent whose safety policy is verified with Verus.

The agent talks to an OpenAI-compatible model, lets it call two arithmetic
tools and `run_command`, and runs every command through a capability
registry, an approval gate, a sandboxed first attempt and a retry gate.

## Layout

- `src/` — the verified library.
  - `model/` — requests, capabilities, approval scopes, execution results and
    events, with their mathematical views and `Debug` texts.
  - `tool/shell/` — the command runtime: capability matching (`registry`),
    the approval gate and the session approvals, kept in a `dashmap` map
    (`approval`), the retry gate
    (`retry`), the command flow as a state machine (`flow`), and the
    simulated and operating-system runners' decisions (`execution`).
  - `tool/runtime.rs`, `tool/function.rs` — which tools the model sees, how a
    call becomes a plan, and the arithmetic tools.
  - `agent/` — the streamed events, the reading of a streaming response,
    from the received text and each chunk's JSON to stream events
    (`llm/openai.rs`) and the decisions of the ReAct loop (`react.rs`).
  - `cli/` — the terminal state, the event loop's decisions, the layout
    arithmetic and the markdown table handling of the view.
  - `sandbox/`, `approval.rs`, `util.rs`, `text.rs` — the simulated sandbox,
    the approval decision, prefix matching and verified text helpers.
- `app/` — the program around the library: the HTTP client, process
  spawning, the approval channels, the async loops and the terminal drawing.
- `tests/` — the tests, run against the compiled library.
