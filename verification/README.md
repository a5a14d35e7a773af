# workmux

The logic of workmux's workspace commands, written and verified in Verus: merging a workspace in
a jj repository, rebasing it, recording the base of a branch, listing worktrees, and the
metadata that belongs to a workspace.

The library touches neither the repository nor the terminal. A command that has to alternate
between the outside and its own decisions is a state machine: `pending_effect` names what is to
be done next, `advance` takes what came of it. The contracts of these two functions say exactly
what is asked for and what follows from each reply; the laws say what holds of every run, such as
that a merge with conflicts is undone, that nothing runs before the merge was cleared, and that a
workspace is cleaned up only after its branch arrived in the target.

- `src/effect.rs`, `src/error.rs`, `src/run.rs`: effects and replies, errors and their messages,
  runs of a state machine.
- `src/merge.rs`, `src/rebase.rs`, `src/set_base.rs`, with `src/merge_laws.rs` and
  `src/rebase_laws.rs`: the commands and what holds of them.
- `src/jj.rs`: the `jj` command lines and how their results are read.
- `src/meta.rs`, `src/workspace.rs`: metadata of a workspace, and finding one by name.
- `src/list.rs`, `src/table.rs`, `src/printable.rs`, `src/relative.rs`, `src/roots.rs`: what is
  listed and how it is shown.
- `src/paths.rs`, `src/order.rs`, `src/text.rs`: paths, their order, and text.
- `tests/`: scenarios.
- `app/`: the commands around the library; it performs the effects.

Three crates are called from the library: `getrandom` for window tokens, `pathdiff` for relative
paths, and `tabled` for the layout of the table. What is taken for granted of each call is said
where it is declared.
