# narada_agent_tui

The verified core of the Narada agent terminal projection client: the part of
the client that decides what to send to a Narada Agent Runtime Server (NARS)
session and what the events it streams back mean.

## Layout

- `src/` — the library, verified with Verus.
  - `text`, `json`: mathematical models of text and JSON values, the `std`
    string operations and the two `serde_json` calls (parse, compact
    serialisation) behind trusted wrappers.
  - `*_contract`: the bundled carrier contracts (commands, protocol
    vocabulary, MCP JSON-RPC, operator routing, provider adapter, transcript
    classifiers, runtime booleans, input pipeline) and their validation.
  - `carrier_command`: what an operator submission is (command, agent input,
    nothing).
  - `cli`: command-line parsing and launch checks.
  - `sha1`, `websocket`: the SHA-1 digest, the WebSocket handshake, and frame
    encoding and decoding.
  - `nars_projection`: endpoint parsing, NARS event normalisation, the replay
    cursor (sequence tracking and event-id de-duplication), request frames,
    launch-binding resolution and the projection status.
  - `transcript_projection`, `transcript_store`: the rows events project to,
    and the store that de-duplicates, coalesces streaming text and prepends
    history pages.
  - `provider_dispatch`, `provider_tool_call_bridge`, `mcp_fabric`,
    `mcp_json_rpc`: the provider-facing logic — prompts, Codex arguments and
    output handling, tool-call envelopes, operator intent routing, tool alias
    resolution, MCP request lines and results, and the Codex MCP configuration.
- `app/` — the program: command line, socket and file I/O, the polling loop,
  and `serde` copies of library types for reading contract and response texts.
- `tests/` — tests of the library on concrete values.
