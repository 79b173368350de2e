# poprako

The agent core of a chat bot, written in Verus: what the agent decides and
computes is verified in `src/`, and `app/` carries it out against files, HTTP
and PostgreSQL.

- `src/resolver`: messages (OpenAI and DeepSeek shapes), contexts, tool
  definitions and their JSON Schema, resolver errors.
- `src/resolver_impl/deepseek`: the request body, reading the first choice
  of a response, building the action.
- `src/agent`: the loop's decisions (`evaluate`: a step function from the
  evaluation's stage and what the last piece of work gave to the next
  stage), compaction, interceptor answers, the tools (files, memory shards,
  web, sub-agents, remote tools, the shell tool) and the embedded plugins;
  the first-generation snapshot store's records and codec.
- `src/session`: the session store's records, the checkpoint plan and how a
  chain of checkpoints reads back, and the codec between contexts and stored
  messages.
- `src/prompt.rs`, `src/text.rs`, `src/lines.rs`, `src/json.rs`: the system
  prompt, text helpers, splitting/joining/sorting text, and plain JSON values.
- `app/`: the async agent loop (which runs that step function), resolvers
  over HTTP, tool I/O, remote tool registration, and the two PostgreSQL
  stores.
- `tests/`: runtime tests of the library.
