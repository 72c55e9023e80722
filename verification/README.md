# spacer-core

The verified core of Spacer, a tool that lays out a workspace of code
projects: *spaces* group *projects*, and *changes* (git branches with their
own worktrees) track work within a project.

Layout:

- `src/` — the library, verified with Verus.
  - `model`, `registry`, `ops`: the records, the registry that holds them and
    the rules for creating, selecting and removing them (`ops` states each
    rule as a predicate over the registry's view).
  - `store`, `workspace`, `memory`: the operations every back end offers
    (with the policy a back end states: whether its medium may fail, whether
    it reads the environment, whether it guards removals), the facade over a
    back end, and the in-memory back end.
  - `config`, `git`: the decisions of the JSON-configuration back end and of
    the git back end; each operation that needs filesystem or git work is
    split into a decision (`plan_*`) and a record of the work done
    (`commit_*`). `worktree` reads `git worktree list --porcelain`; `order`
    sorts records stably by name.
  - `rows`, `browser`, `shell`, `paths`, `text`: listing rows, the state of the
    interactive browser and the keys it answers, shell integration, path joining and text helpers.
  - `laws`: properties spanning several operations.
- `tests/` — tests of the library.
- `app/` — the command-line program: argument parsing, the terminal UI, the
  filesystem and git work of the two on-disk back ends, and JSON files.
