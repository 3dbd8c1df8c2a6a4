# kubeview

A terminal UI for Kubernetes: browse pods, services, deployments, ingresses,
secrets and events; tail logs, exec into containers, port-forward, scale and
restart deployments, edit secrets, and switch Teleport clusters.

The logic is a library verified with Verus; the terminal, the network and the
subprocesses live in a thin binary around it.

## Layout

- `src/` — the verified library
  - `app.rs` — the application state machine. Every key-driven method states
    exactly how it changes the state; work that needs the cluster comes back as
    a `Fetch` request, and the result is handed in again (`receive_*`,
    `open_viewer`, `scale_done`, …).
  - `keys.rs` — which command each key asks for, in each input mode and tab.
  - `model.rs` — the rows of each table, computed from plain records of what
    the API returned; events newest first, namespaces sorted.
  - `describe.rs`, `output.rs` — the viewer's lines: describe views, YAML,
    helm and tsh output, decoded secrets.
  - `parse.rs` — port pairs and the `tsh kube ls` listing.
  - `screen.rs`, `theme.rs` — titles, status bar, popup placement, column
    widths, colours by meaning, the four themes.
  - `text.rs`, `sort.rs` — string and sorting helpers with their specifications.
  - `fuzzy.rs` — the pod search, through `fuzzy-matcher`.
  - `laws.rs` — properties of the whole: navigation stays on a row, tab and
    namespace cycles, what search shows, what Esc, `q` and the confirmation
    dialog do.
- `tests/` — tests on concrete values.
- `app/` — the binary: terminal setup and drawing (ratatui, crossterm), the
  Kubernetes client (kube, k8s-openapi), subprocesses and channels (tokio).
