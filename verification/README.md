# zk_agent

The logic of a Zero-K agent setup, verified with Verus: a game manager that
serves an LLM agent over MCPL (tools, lobby session, game channels) and a
Skirmish AI bridge that relays engine events and commands.

## Layout

- `src/` — the verified library.
  - `json.rs`, `json_text.rs`, `text.rs`: JSON values (numbers kept as text),
    JSON text read and written by serde_json, string helpers.
  - `lobby.rs`, `lobby_tools.rs`: the lobby session and the agent's lobby tools,
    each planned from the session and its arguments and finished from the
    lobby's answer; lobby events passed on to the agent.
  - `mcpl.rs`, `tools_list.rs`: request routing, game channels, the announced
    tool list.
  - `tool_registry.rs`, `manager.rs`: tools registered by widgets and plugins,
    deferred tool calls and their time-outs, handling of bridge events.
  - `events.rs`, `commands.rs`, `bridge.rs`, `game_state.rs`, `plugin.rs`: the
    bridge's events, the steps of dispatching a command to the engine, update
    throttling, socket discovery, plugin results.
  - `write_dir.rs`, `lua.rs`, `cli.rs`: the agent's write directory, the widget
    configuration files, command-line flags.
- `tests/` — tests of the library on concrete values.
- `app/` — the program around it: I/O, sockets, the engine's C interface,
  dynamic plugin loading, floating-point start-position scoring.
