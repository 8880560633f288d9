# quantpilot

The decision logic of the QuantPilot strategy runtime service, written in Verus with
contracts that the verifier proves.

## Layout

- `src/` — the verified library. Each module states its model in spec functions and its
  operations with `requires` / `ensures`; laws that relate several operations are public
  proof functions (`lemma_*`).
  - `events`, `timeline`, `report`, `replay`, `record_views`: runtime event envelopes,
    timelines, compact evidence, evidence reports and replay windows.
  - `projection`, `v4_events`, `v4_handoff`, `backtest`, `backtest_admission`, `run_flow`, `run_stream`, `normalization`:
    frontend events of runs and backtests, v4 machine runs, experiments and stored
    record normalisation.
  - `mutation`, `proposal`, `ai_proposal`, `activation`, `record_ids`: parameter
    mutations, AI proposals, approvals and the documents their ids are digested from.
  - `capabilities`, `storage`, `safe_log`, `rate_limit`, `migration`, `report_ops`,
    `diagnostics`: configuration checks, storage lifecycle, log sanitisation, request
    limiting, deployment, operations reports and node diagnostics.
  - `json`, `json_text`, `text`, `error`: JSON values, their text form, text helpers and
    refusals.
- `tests/` — tests that run the compiled library.
- `app/` — the command-line program around the library: files, the environment,
  `serde_json` conversion, digests and the floating-point summaries.
