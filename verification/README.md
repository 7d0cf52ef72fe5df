# fjall_cli

A command-line front end for the [fjall](https://crates.io/crates/fjall) key-value
store, built around a library verified with Verus.

* `src/` is the library. `command/` holds one module per command; each command
  decides what the database answers and renders the bytes for standard output,
  and its contract (`outcome`) states the result over a model of the database:
  for each keyspace name, the keyspace's id and its key-value pairs.
  `types/` holds the byte encodings of arguments, separators with escapes, length
  prefixes and the rendering of output items. `storage.rs` declares fjall's types
  and wraps the fjall calls the commands make, with contracts over the model;
  `hex_codec.rs` wraps the `hex` crate and states which error it reports. `laws.rs` proves what holds across
  commands, such as that a get after an insert prints the inserted value.
* `app/main.rs` is the program: it parses the command line with clap, opens the
  database, reads the files of path-encoded arguments, stops where fjall would
  panic (an invalid keyspace name, or a key or value it cannot store, once the
  arguments decode), runs the command and writes its output and exit code.
* `tests/` runs the commands on databases in temporary directories.
