# stratum

The verified core of an agent runtime: an agent loop that calls a model, runs the tools it
asks for and commits every message through a durable event sink; resumable turns; a
filesystem-backed agent store; event sinks and an in-memory event bus; and a registry of
builtin tools.

The decisions of the runtime are functions and state machines in `src/`, proved with Verus
against their contracts: the loop and turn machines, with the token usage they sum over
their model calls, tool execution, the store's transitions, event scoping and per-agent
event histories. The outside work (model calls, event
publication, filesystem access, approvals) is done by the asynchronous drivers in `app/`,
which hand each outcome back to the machine and perform the action it returns. The drivers
also hold what only they can observe: they check for cancellation around each model attempt
and while a response streams, wait for new events, and take the locks of the shared bus.

- `src/` — the library. `agent_loop` and `tool_executor` hold the loop kernel and approval-aware
  tool execution; `turn`, `turn_stream`, `turn_tool` and `resume` the turns of a stateful agent;
  `store`, `append` and `record_shape` the agent store; `sink`, `envelope`, `memory_bus` and
  `agent_events` the event stream; `tools`, `search` and `tool_output` the builtin tools;
  `sse` the server-sent-event reader; `llm_manager` the provider registry.
- `tests/` — tests of the library on concrete values.
- `app/` — the asynchronous drivers around the state machines.
