# webcodex

The core of a server through which callers have coding work done on other machines. Agents
register and poll for work. Callers have commands, file operations and jobs run by the
agents that they own. Tools put that together for coding tasks: they resolve projects, read
what git printed, and tell how a task stands.

The library in `src/` is verified with Verus: every function says what it returns for every
input, and the proofs are checked against that. `app/` is the HTTP server around it.

## The library

- `text`, `text_map`, `order`, `lines`, `cut`, `numbers`: texts, maps with text keys, and
  what is read out of texts.
- `json`, `json_text`: JSON values, and reading them with `serde_json`.
- `shell_client`: the registry of agents.
  - `access`, `transport`: who may see and use which client, and who may act as an agent.
  - `protocol`, `validation`: the messages and what they have to keep.
  - `model`: the state of the registry and each of its steps as mathematics.
  - `state`, `registry`, `jobs`: the registry itself.
  - `requests`: what callers ask of agents, from the request to the reply.
  - `audit`: what the audit log keeps.
  - `invariants`, `laws`, `history`, `log_laws`: what every step keeps, and what several
    steps promise together.
- `startup`: the command line.
- `tool_runtime`: the tools.
  - `calls`, `kernel`, `kernel_flow`, `dispatch`, `dispatch_flow`, `tool_work`: the way of a
    call from its name to its answer.
  - `authorization`, `project_resolution`, `resolution_laws`, `session_context`: for whom,
    where and in which session a call runs.
  - `tool_table`, `schemas`, `output_schemas`, `coding_task_schemas`, `registry`,
    `manifest`: the tools that are offered.
  - `git`, `diff`, `changes`, `git_tools`, `project_commands`, `shell_text`: commands in a
    project, and what is read out of their output.
  - `agents`, `sessions`, `coding_task`, `coding_task_results`, `handoff`,
    `handoff_summary`: what is told of agents, sessions, tasks and handoffs.
  - `lookups`: what tasks and handoffs look up elsewhere.

Functions whose name ends in `_at` take the time as an argument, and new ids where they
need them. The functions without that ending read the clock and draw the ids.

## What is taken on trust

The clock (`chrono`), random ids (`uuid`), digests (`sha2`) and the reading of JSON text
(`serde_json`) are called through small functions whose doc comments say what is believed of
them.

## The server

`app/` serves the endpoints of the registry and of the tools. It reads its settings from the
environment; `tools.json` in the data directory says of each tool what its hints are.
