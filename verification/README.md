# creator_studio

The verified core of AI Creator Studio's desktop back end. `src/` holds the
studio's rules, each stated as a Verus contract and proved:

- `runtime/` — where the managed runtime lives, whether it is ready, the
  interpreter and package-tool detectors, and the installer as a state
  machine that asks for one outside step at a time (with PowerShell quoting).
- `system_check`, `startup` — what the machine must offer, and the first-run
  startup machine (install, check, start the engine, report).
- `jobs` — the generation job table and how a job's state moves.
- `worker` — the worker of one job as a state machine: create the logs,
  launch the adapter, poll it, write the debug log, record the outcome once.
- `assets` — the asset manifest and the records made from a generation.
- `engine`, `model_catalog`, `models`, `capabilities`, `hardware` — the
  adapter boundary: locating scripts, invoking the adapter, reading answers.
- `json`, `text`, `paths`, `process` — the plain-value models these rest on
  (JSON documents, trimming and lines, paths, command outcomes).

`app/` is the Tauri shell: file system, processes, environment variables,
threads and serde copies of the library's types. It performs the steps that
the library's machines ask for and hands the outcomes back.
