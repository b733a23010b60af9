# e-voice

`e-voice` is a local-first Linux companion for voice dictation. It receives raw
text from `voxtype`, has a language model server (Ollama or LM Studio) process it,
and returns polished text ready to type at the cursor. Dictated text is never
lost: if the server fails, the raw text comes back.

## Layout

- `src/` is the library, verified with Verus: every rule, text format and state
  machine of the program, with its contract. What touches the outside world is a
  step function here: it takes what happened and returns what to do next.
- `app/` is the program around it: command line, sockets, files, processes, the
  tray icon.
- `tests/` runs the library.

| Module | What it decides |
|--------|-----------------|
| `modes`, `processor` | prompts, profiles, and what is typed in the end |
| `llm_backend` | requests to the model servers and what their answers mean |
| `daemon`, `transport`, `client` | state, protocol and life of the daemon, and its clients |
| `http_server` | the same over HTTP, on this machine only |
| `config` | configuration, saved state and where they live |
| `voxtype`, `hook` | reading and editing the voxtype configuration |
| `system_adapter`, `setup` | commands on the host and the first-run wizard |
| `diagnostics`, `cli`, `app` | `e-voice doctor` and the other commands |
| `tray` | the tray icon, its menu and its commands |
| `json`, `strings`, `text` | texts: JSON, executable helpers, and their mathematics |

Each module ends with its laws: public proof functions that state what holds of
several functions together, such as that a written setting is read back, that a
mode survives a restart, or that a successful setup enabled the service exactly
once.

## What is trusted

Four contracts are believed rather than proved: `String::push`, the `Debug` format
of strings, `serde_json::to_string` on strings, and the `Display` format of HTTP
status codes.
