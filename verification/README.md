# nbox

The logic of a NetBox client, as a library that Verus verifies: views of NetBox
objects, single-object details, planned writes, a read cache, and a configuration
file that is edited in place.

- `src/` is the library. Every function states what it returns in its contract.
  - `text`, `number`, `split`, `order`, `rate`, `output`, `json`: the ground that the
    rest stands on.
  - `error`: errors with stable exit codes.
  - `cache`: keys, the in-memory store, time-to-live tiers and the read-through
    policy.
  - `config`: settings, tokens, profiles, and edits that keep a file's comments.
  - `netbox`: models of the objects, labels, choices and write plans.
  - `domain`: the views, and under `domain::detail` the resolution of references,
    screens, cable walks and writes.
- `tests/` exercises the library from outside.
- `app/` is the shell: command line, files, environment, database, network.

Outside crates are called through small trusted functions whose contracts say what
is relied on: `toml_edit` and `indexmap` for the configuration, `serde_json` for
printing JSON, `ipnet` for prefixes, `reqwest` for URLs.
