# shadow_provider

The logic of a provider that runs network nodes inside the Shadow network
simulator. Each simulated host runs an HTTP agent; the provider asks it to
create directories, receive files, start, pause, resume, restart and end the
node's process, and reads its answers.

- `src/` is the verified library (Verus):
  - `text`: decimal rendering and parsing of integers, path joining;
  - `encoding`: padded standard base64 (RFC 4648) and its decoding, with
    the round trip proved;
  - `registry`: entries keyed by name, each name once;
  - `client`: the agent's requests and how its answers are read;
  - `node`: a node's file layout, its setup plan as a state machine, the
    errors of its operations, the choice of its address;
  - `namespace`: namespace names and directories, the nodes of a namespace,
    the teardown of its nodes;
  - `provider`: the provider's configuration and its namespaces.
- `app/` performs the I/O (HTTP, file system, name lookups, the environment,
  random UUIDs, locks), drives the library's state machines with the
  outcomes, and converts between the library's values and JSON.
- `tests/` runs the library on concrete values.
