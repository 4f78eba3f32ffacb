# pongllm

Pong is a synthetic web health monitor that lives in the system tray: a hidden
webview keeps a signed-in session to a dashboard, a cron schedule injects a
probe into it, and the probe's status code becomes a verdict shown in the tray.

This crate is the monitor's logic, verified with Verus:

- `config` — the configuration, its defaults, validation (first problem wins,
  in a fixed order) and the plan for hot-applying a changed configuration.
- `health` — status codes to verdicts, reports and the UI phase.
- `injection` — the parameters and scripts handed to the webview, with every
  text JSON-escaped; no script ever holds a line break.
- `monitor` — the pipeline's decisions: after the heartbeat, after a sign-in
  confirmation, the time budget of a check, usage payloads, the tooltip.
- `scheduler` — next cron occurrence, countdown and its rendering.
- `state` — the shared monitor state: the single check slot, nonces, waiting
  probes, the bounded newest-first histories and what publishing a report asks
  of the application.
- `usage` — reading the usage panel: "Resets in 3 hr 43 min" and
  "Resets Sun 7:00 AM" in English and Portuguese.
- `text`, `time`, `tray` — character helpers, instants in milliseconds, and
  the popover's placement.

`app/` is the desktop application around it (windows, IPC commands, timers,
the config file, the cron job): it performs the webview and disk I/O and
carries out what the library's step functions decide.
