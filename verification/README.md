# hiraku_engine

The script core of the Hiraku visual-novel engine, verified with Verus.

- `src/` is the verified library: the IR virtual machine and its snapshots,
  the replay journal and its deterministic random draws, the script host's
  decisions (checkpoints and save replay, `seq`/`par` blocks and animation
  handles, inline dialogue, the scene, sound and flow API), the statement
  builders for audio and movies, the lowering of parsed scripts into IR
  (branch and loop patching included), story navigation requests and calls,
  flow signals, and the run loop's decisions. Each public function states what it
  returns or changes in its contract; the laws that relate several calls are
  public proof functions.
- `tests/` runs the library on concrete values.
- `app/` is the engine side: the Rhai bindings of the script API, the channel
  to the engine, the loop that runs scripts (handing jump targets that
  compile to the IR runtime), the reading of Rhai's syntax tree for the IR
  compiler, project files, save data with serde derives and the script
  random generator.
