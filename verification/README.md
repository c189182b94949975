# ao_projects

Task and requirement management for AI-driven development pipelines, with
its logic verified by Verus.

A project holds tasks (with statuses, priorities, checklists and
dependencies) and requirements (with review statuses, acceptance criteria and
links to the tasks that implement them). Ids are sequential (`TASK-001`,
`REQ-001`), listings are filtered and ordered, and the state of each
repository is kept in its own directory under `~/.ao-projects`.

## Layout

- `src/` — the verified library.
  - `task_service.rs`, `requirement_service.rs`, `state.rs`: the services and
    the project hub, with contracts over maps from ids to records.
  - `commands.rs`, `tools.rs`, `sync.rs`: what the command line, the agent
    tools and synchronisation do and report.
  - `statistics.rs`: task counts under the names of what they count.
  - `scope.rs`, `query.rs`, `ids.rs`, `order.rs`, `keyed.rs`, `names.rs`,
    `numbers.rs`, `text.rs`: paths and scopes, pagination, sequential ids,
    sorting, keyed collections, name parsing and text handling.
  - `laws.rs`: properties that span operations, proved once for all inputs.
  - `outside.rs`: the clock, random ids, SHA-256, the home directory and
    Unicode classes, taken from other crates with stated contracts.
- `tests/` — tests of the library on concrete values.
- `app/` — the `ao-projects` program: argument parsing, JSON files, HTTP
  sync and the MCP server (`ao-projects mcp`).
