# Maremma

Maremma is a service monitor. The library decides what checks of many kinds (commands,
HTTP requests, pings, SSH commands, TLS handshakes, Kubernetes and OpenTelemetry
collector health) mean, when they run, and how their results are kept. The program in
`app/` runs command, HTTP and ping checks against the hosts of a configuration, on cron
schedules, keeping their state and results in memory while it runs.

The decisions of the monitor are a library whose behaviour is stated in `requires` /
`ensures` contracts and proved with Verus.

## Layout

- `src/` — the verified library.
  - `status`, `status_order` — check statuses, how they are shown and ordered by severity.
  - `schedule`, `store`, `check_loop` — which check runs next, how results are recorded,
    and the decisions of the loop that runs checks (backoff, concurrency, supervision).
  - `services/` — each kind of check: its settings, how a host's own settings overlay
    them, and what a finished check means.
  - `config`, `json`, `host`, `db`, `prune` — the configuration, host settings, and how
    the stored hosts, services and checks follow the configuration.
  - `discovery`, `otel`, `splunk`, `actions`, `logging`, `errors`, `ids`, `text` — service
    discovery in Kubernetes, collector checks, the Splunk check, Pushover notifications,
    log filters, errors, identifiers and text helpers.
- `tests/` — tests of the library on concrete values.
- `app/` — the program around the library: command line, reading the configuration,
  and the I/O that runs command, HTTP and ping checks.
