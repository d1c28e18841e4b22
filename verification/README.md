# source_update

Keeps a Codex installation that was built from a source checkout up to date: the checkout is
merged with its upstream, a package is built from it, and the package is installed beside the
earlier ones, with a rollback where it does not work in its place. The crate also holds the choice
of the update for installations of other kinds, the start of the state runtime with the recovery of
a corrupt logs database, and the readiness protocol between the updater and the code-mode host.

The library in `src/` is verified with Verus. It does no input or output. Each procedure is a value
with a pending operation and an `advance` method that takes in how the operation ended; its
contract says which state follows, and the laws beside it say what holds of whole runs. The crate
in `app/` performs the operations: files, commands, sockets and SQLite.

- `text`, `os_text`, `path`, `json`, `failure`, `notice`, `command`, `io`: values that the
  procedures are written with.
- `update_action`, `version`: which update an installation gets, and which version it shows.
- `layout`, `lock`, `staging`, `package`, `symlink`, `retention`, `installer`, `install_laws`:
  installing a package.
- `disk`: a model of the file system, for the laws on what is installed.
- `readiness`, `transport`: trying out a package, and the listener that answers.
- `checkout`, `packaging`, `attempt`, `agent`, `source_update`: the update from first to last.
- `state_init`, `logs_recovery`, `state_tasks`: the state runtime.
