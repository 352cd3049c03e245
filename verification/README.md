# n8sight

A terminal dashboard for monitoring n8n workflows and executions: lists of
workflows and executions with filters and sorting, an execution inspector with
a per-node waterfall, a workflow graph, and an insights scan that flags
failing, stuck, slow or abandoned workflows.

The dashboard's logic is a library verified with Verus; the terminal, the
network and the configuration files are handled by a thin program around it.

## Layout

- `src/` — the verified library.
  - `app.rs` — the dashboard state machine: `App::update` takes an action
    (a key, a tick, data that arrived) and returns the next state and the
    effects to perform. Its contract is a spec function `step` over the
    state's view.
  - `properties.rs` — laws of the state machine and of the insights scan,
    proved over the same spec functions.
  - `action.rs`, `scroll_state.rs`, `sort.rs` — actions and effects, list
    selection and scrolling, stable multi-key sorting.
  - `domain/` — workflows, executions, JSON values, and the insight detectors.
  - `figures.rs`, `canvas.rs` — numbers and texts shown on screen, and the
    workflow graph drawn in characters.
  - `client/` — API filters, request building, paging, and a canned client
    for demonstrations.
  - `cli_worker.rs` — the background worker's decisions: which API call to
    make next and what to report when it answers.
  - `config.rs` — layered configuration and its validation.
  - `text.rs`, `clock.rs` — string helpers and the wall clock.
- `app/` — the program: terminal setup, event loop, HTTP client, rendering.
- `tests/` — tests of the library.

Run `verus` on `src/lib.rs` to verify the library.
