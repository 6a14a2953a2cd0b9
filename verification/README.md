# aelita

A merge bot that keeps a repository's master branch always passing its
tests. Approved pull requests are queued, merged one at a time onto a
staging branch, built by the configured CI jobs, and only moved to master
once every job has succeeded.

## Layout

- `src/` — the verified library (Verus).
  - `pipeline/` — the state machine that reacts to UI, CI and VCS events;
    `pipeline/laws.rs` states what every step keeps.
  - `db/` — the per-pipeline store (queue, running entry, pending pull
    requests, CI states) and its read-after-write laws.
  - `config/` — the configuration, from the text of a TOML file or from
    the environment, and the builder that wires pipelines to workers.
  - `ui/`, `ci/`, `vcs/` — the decisions of the GitHub, GitHub status,
    Jenkins, Buildbot, git and GitHub-git workers.
  - `view/` — the web view's routing, grouping, ordering, cookies and
    login checks.
  - `util/` — webhook signatures, hexadecimal text, rate limiting, and
    the retry schedule of store transactions.
- `tests/` — tests of the library on concrete values.
- `app/` — the executable: argument handling, file reading, HTTP, threads,
  persistence, and the serde and HTML glue around the library.
