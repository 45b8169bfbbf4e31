# gameserver_cli

The verified core of a command-line client for a game-server panel.

- `src/` is the library, verified with Verus:
  - `text.rs`: character-level string operations specified over `Seq<char>`
    (search, prefixes and suffixes, trimming characters and white space,
    replacement, splitting lines, decimal notation), and the one
    standard-library call whose result is only named (Unicode lowercasing).
  - `json.rs`: the two questions asked of JSON documents, answered by
    `serde_json`.
  - `gameserverspec.rs`: the panel's objects, how command-line values become
    objects, how names are read, and how settings are merged.
  - `databasespec.rs`, `jsondatabase.rs`: the local database and how the
    client starts from it.
  - `types.rs`: messages exchanged with the panel.
  - `client.rs`: the client's decisions: its own settings, local nodes,
    addresses, streamed messages, server-sent status events and the choice
    of a node for a preset server.
- `tests/`: tests of the library on concrete values.
- `app/`: the program itself: argument parsing, HTTP and web-socket traffic,
  files, and the `serde`/`clap` forms of the library's types.
