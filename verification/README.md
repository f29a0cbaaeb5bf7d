# uce

The decision logic of UCE, the FileWisely desktop capture agent, written in Verus and
proved against its contracts.

UCE watches the folders a body shop prints and scans into (CCC ONE's temp folder,
`C:\FileWisely\Incoming`, scan folders, optionally the user's Downloads/Desktop/Documents),
claims new PDFs and Office documents into a staging folder, converts Office files, and
hands the PDFs to the upload pipeline. In the other direction it mirrors crew photos from
the cloud into the shop's CCC Import folder and acknowledges each job.

## Layout

- `src/` — the verified library. Every function has a `requires`/`ensures` contract over
  mathematical models (`Seq`, `Set`, `Map`, spec functions), and the properties that span
  several calls are stated as `law_*` proof functions.
  - `text`, `paths`, `json`: strings, Windows paths and JSON values as plain sequences.
  - `claim_parse`, `api_contracts`, `ccc_package_sync`, `ack_spool`: the CCC package sync
    (claim batch parsing, request checks, destination paths, per-job acks, the ack spool).
  - `context_rules`, `context_tracker`, `context_training`, `types`: window
    classification, trained and excluded rules, cooldowns.
  - `pdf_watch_config`, `config`, `services::*`: watch roots, the folder watcher's
    decisions, claims into staging, conversion plans, printer routing, diagnostics state.
  - `pdf_capture`, `upload_spool`: choosing recent PDFs and the upload spool.
  - `connection_diagnostics`, `device_health`, `health_watchdog`, `diagnostic_report`:
    heartbeats, tray health and the Connection Doctor report.
- `tests/` — ordinary Rust tests of the library on concrete values.
- `app/` — a small command-line front end that does the file and process I/O around the
  library (reading folders, running PowerShell, serde conversions, and the pretty-printed
  JSON of the report's capture-pipeline section).

Outside crates used by the library: `url` (URL parsing for the policy and ingest URLs),
`base64` (the PDF payload), `chrono` (log time stamps), `serde_json` (parsing the
claim-batch response text). Their calls sit behind small
trusted wrappers whose contracts are documented next to them.
