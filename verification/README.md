# grass

The grass.ai agent framework: agents, tasks and their scheduling, hooks,
plugins, agent protocols (ACP, MCP, gRPC), LLM providers and filters,
inter-process transports, sandboxes, and adapters for outside services.

## Layout

- `src/` is the library, written in Verus. Every function carries a
  contract that Verus proves: the error catalogue and its built-in codes,
  the priority scheduler, the task graph, the crew and task managers, the
  hook, plugin and protocol registries, what each LLM provider sends and
  how its replies become responses, the request and response filters, the
  transports' state, the Ethereum quantity format, and the endpoints and
  request parts of the outside services. Laws that span several calls
  (reading back what was written, arrival order within a priority, hooks
  that no longer fire once removed, ...) are public proof functions.
- `app/` is the program around it: the tokio entry point, the HTTP and
  file-system exchanges, the async interfaces that users implement, and the
  JSON forms of the library's types.
- `tests/` runs the library on concrete values.

Calls into outside crates that the library makes (random and textual
UUIDs, the clock, UTF-8 decoding of stream chunks, `Debug` text of
strings) go through small trusted functions whose contracts state what the
crates document.
