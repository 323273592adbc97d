# prompt_optimizer

The logic of PromptOptimizer, a tray tool that rewrites the selected text with an
OpenAI-compatible chat-completions service, as a library verified with Verus.

- `src/` — the verified library:
  - `config` — profiles, loading of older files, validation, endpoints;
  - `config_load` — the steps of loading `config.json` at start-up;
  - `api` — the stateless request and the reading of the response;
  - `session`, `notice`, `shell`, `apply` — the application's decisions: one
    optimisation at a time, the notices it shows, the messages of the hidden window,
    and applying a configuration with everything undone when a step fails;
  - `gesture` — the multi-tap hotkey gesture;
  - `popup`, `icon`, `clipboard` — the status popup, the tray icon image, the
    clipboard text;
  - `settings`, `form_controls`, `form_flow` — the settings window: layout, profile
    drafts, form parsing and status;
  - `text` — string operations with exact specifications.
- `app/` — a console front end: loads `config.json` (through the verified loading
  steps), reads the text from standard input, sends the request over HTTPS and
  prints the result.

The Windows shell is absent: there is no tray icon, global hotkey or keyboard hook,
settings window, selection reading or clipboard output here. The library holds the
decisions of that shell (messages, gesture, popup placement, settings layout and
form, applying a configuration), but nothing runs them against Windows.
- `tests/` — tests of the library on concrete values.
