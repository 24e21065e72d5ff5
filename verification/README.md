# axel

The logic of a private API server for the KonoSuba mobile game, and of the tool that
points a running client at it, verified with Verus.

- `src/protocol.rs`: the call protocol: the JWT payload of a call, the AES-CBC body and
  its IV, the parameters a handler sees, the session a call runs in, and the signed,
  encrypted response.
- `src/master.rs`, `src/text.rs`: rows of the game's master data and how their fields read.
- `src/blob.rs`, `src/level.rs`: the user parameters that login and the item screens send.
- `src/api/`: one module per group of API methods: what each answers, from the master rows
  and the user's rows it is handed.
- `src/patcher.rs`: finding and replacing the server key and URL in the client's memory.
- `app/main.rs`: the patcher program: reading the process's memory maps and memory,
  writing the patch, and its command line.
- `tests/`: tests on concrete values.

The database, the HTTP routing and the reading of the master files are not part of the
library: handlers are given the rows they read, and the clock, as arguments.
