# galatea

The verified core of the Galatea endpoint agent: the rules by which it
correlates file and process telemetry, decides whether a process image may
run, recognises packers and suspicious PE layouts, and presents its findings
to the client.

## Layout

- `src/` is the library, written in Verus; Verus proves each function
  against its contract.
  - `file_context.rs`, `alias_index.rs`, `file_context_cache.rs`,
    `snapshot.rs`, `tiers.rs`, `maps.rs`: the two-tier file context cache,
    whose path and file-index aliases resolve to one logical context, and the
    listing sent to clients.
  - `process_context.rs`: the process context cache.
  - `static_result_cache.rs`, `scan_flow.rs`, `detection.rs`, `correlation.rs`:
    the static scan of a process image as a state machine, the cache of
    finished scans with its in-flight slots, the scoring stages and the
    verdicts sent to the kernel sensor and to clients.
  - `pe.rs`, `heuristics.rs`, `packers.rs`: PE parsing (through goblin), the
    layout heuristics and the packer signature database.
  - `sensor.rs`, `fs_filter.rs`, `telemetry.rs`, `signatures.rs`: the
    decisions of the kernel sensor and the minifilter, and how their events
    become context updates.
  - `ipc.rs`, `mgmt.rs`: the command channel between client and agent, and the
    driver service commands.
  - `gui.rs`, `client_view.rs`, `details.rs`, `theme.rs`: the client's state
    machine, the text it shows, the filters over its lists and the detail
    lines of an expanded detection or file context.
  - `text.rs`, `canonical.rs`: string helpers and path canonicalization.
- `tests/` runs the library on concrete inputs.
- `app/` is a command-line scanner around the library: it reads files, talks to
  the signature database and runs scans on a thread pool. Entropy and the
  classifier's feature vector are computed there, in floating point.

Calls into outside crates (moka, dunce, regex, goblin, md-5, and a few
functions of std) go through trusted wrappers. Their contracts state what the
library relies on, as far as the crate's documentation and source show it.
For the moka tiers they state only that a tier holds at most what it held
plus what was written, and keeps the capacity it was built with: moka may
drop an entry at any time (its housekeeping applies pending writes and
removals in order and evicts by its own policy), so the cache's read-back
laws hold "unless the entry was evicted", and which entry leaves a full tier
is left open.
