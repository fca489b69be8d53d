# smoothee

A safer, clearer Git workflow: `status` explains the repository in plain
language, `sync` updates a branch behind a restore point, `resolve` guides
conflict resolution, `commit` builds one intentional commit, `undo` reverses
the last Smoothee operation, and `doctor` checks the environment.

The library under `src/` is verified with Verus. Every decision the tool
makes lives there with its contract: parsing Git's output, choosing a sync
strategy, planning commits, the operation journal and its folding, and the
wording of every report. Operations that talk to Git (sync, resolve, undo,
recovery, status gathering, base-branch detection) are written as state
machines: each step takes the reply to the previous request and returns
either the next request (run a `git` command, read a file, append a journal
record) or the result, so their ordering properties — a restore point is
pinned and journaled before the branch moves, a failed operation is restored
before it is reported — are proved as laws over those steps.

`app/` is the binary: argument parsing, carrying out the requests (running
`git`, reading files, the JSON journal and the TOML configuration), prompts,
and printing.

Layout:

- `src/exchange.rs` — requests, replies and steps shared by the machines.
- `src/git/` — commands, repository discovery, status, commits, conflicts,
  branches, restore points.
- `src/operations/` — the journal, sync, resolve, undo and recovery engines.
- `src/cli/` — flags and the wording of each command's output.
- `src/config/`, `src/ui/`, `src/verification/` — configuration values,
  terminal styling and prompts' reading, the project's verification checks.
- `tests/` — tests over the public API.
