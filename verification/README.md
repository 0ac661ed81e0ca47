# harness_runtime

The runtime of an agent harness: sessions that hold a tree of agents, the
scheduler that throttles them, the supervisor that spawns children within
budgets, the event bus, checkpoints and restore.

- `src/` is the library. It decides: every function there has a contract that
  Verus proves. Whatever waits, sends or stores hands its results in as plain
  values.
- `tests/` runs the library on concrete values.
- `app/` is the async shell: the traits that a host implements, the tokio tasks
  that drive agents, backends and tools, and the JSON forms of library types.

## The library

| Module | What it states |
| --- | --- |
| `agent_runner` | the mailbox loop, the dispatch of effects, commits, backend and tool drivers, the `agent.spawn` tool |
| `agent_supervisor` | admission, registration and cancellation of child agents |
| `budget`, `spawn_tool`, `permissions` | budgets that only tighten, least-privilege delegation, permission policy |
| `scheduler` | permit pools, admission, per-backend limits and the sliding rate window |
| `session_runtime` | session state, live state, event numbering, projection, snapshot, restoration |
| `session_manager`, `session_client` | lifecycle of sessions, the stages of a restore, what a client is shown |
| `restore` | which dependencies of a stored session a host can resolve |
| `resource_manager`, `workspace` | shared and exclusive resources, an in-memory workspace |
| `cancellation`, `outside` | hierarchical cancellation on tokio's tokens |
| `text`, `json`, `paths`, `tables`, `sorting`, `ids`, `tools`, `protocol`, `agent`, `traits`, `integration` | data and helpers |

`outside` declares tokio's semaphore and cancellation token and says what is
taken from them without proof; the few functions of std and `rust_decimal` that
are taken the same way stand beside their callers, in `text`, `budget` and
`scheduler::config`.
