# skardi

A server that makes data sources answer SQL, as a verified library in
[Verus](https://github.com/verus-lang/verus) with an application around it.

- `src/` is the library. Its functions are proved to meet their contracts.
  - `open_connector/` turns the actions of a gateway into tables: source packs
    and their rules, row paths, pagination, conversion of JSON to Arrow, the
    registry of actions, and the gateway block of a configuration.
  - `server/` decides what the server does: which sources, pipelines and jobs a
    configuration may hold, how a source is registered, how ad-hoc queries and
    pipelines are run and recorded, what the listings show, which requests need
    a session, and what may be logged.
  - `text`, `text_map`, `decimal`, `json`, `json_text` and `order` are what both
    build on.
- `app/` is the server itself: arguments, files, HTTP, SQLite and DataFusion. It
  performs the actions that the library asks for and hands back what came of
  them.
- `tests/` runs the library.

Work that waits for something outside is a state machine in the library: a
`begin_..` function gives the first state and action, and a `step_..` function
takes a state and what came of its action to the next state and action. Their
contracts say what follows for every event.

What the library takes from other crates stands behind functions marked
`external_body`. The comment above each names the outside function and says what
is believed of it.
