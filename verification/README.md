# Recovery for a remote execution client

A verified library of what a build tool decides around remote execution: how a severed
execute stream is reattached, how failed calls are tried again, how blobs are batched,
streamed and looked up, how actions are prepared, and how actions whose outputs expired in
the content store are found, armed and run again.

## Layout

- `src/` is the library. Every function is verified against its contract.
  - The client: `client`, `execute`, `reattach`, `retry`, `upload`, `download`, `batching`,
    `find_missing`, `digests_ttl`, `headers`, `convert`, `names`, `messages`, `digest`.
  - The build: `command_executor`, `platform`, `calculation`, `action_run`, `attribution`,
    `missing_cas_digests`, `cas_missing_recovery`, `recovery_rounds`, `build_command`.
  - The command line: `restarter`, `observer`.
  - Shared: `text`, `duration`, `chance`, `keyed`, `error`.
- `app/` performs what the library decides: it sleeps, dials, reads and writes files,
  encodes messages, and drives actions, rounds and whole commands. Calls to the service
  are futures that the caller supplies.
- `tests/` runs the library on concrete values, with the outside crates linked.

## What is taken on trust

Calls into outside crates stand behind small wrappers whose contracts are believed:
`rand` and `uuid` (`chance`), `prost_types` durations (`convert`), `lru` (`find_missing`),
`tonic` header names and values (`headers`), `sorted_vector_map` (`command_executor`), and
a few functions of std (`text`, `duration`, `action_run`). Each wrapper says in its doc
comment which function it calls and what is claimed of it.
