# zen-free-api

An OpenAI-compatible localhost proxy for opencode.ai/zen/v1. The logic of the proxy is a library
verified with Verus; a thin program around it does the network and file I/O.

## Layout

- `src/`: the verified library
  - `config`, `ids`: configuration from environment variables, session and project identifiers
  - `upstream`, `headers`: the requests to the upstream and their headers
  - `routes`, `documents`: what the routes answer and what they do to the state
  - `completion`, `stream`: what is tracked of completions, whole and streamed; the relay of
    server-sent events byte for byte
  - `state`, `model_map`, `filename`: conversations and usage by model, and the files that
    conversations are kept in
  - `laws`: what holds across the operations
  - `json`, `text`: JSON values and text
- `app/`: the program: environment, files, HTTP server and client
- `tests/`: tests of the library

Contracts speak of a JSON value by the document that it holds (`json_doc`) and of a header map by
its entries (`header_entries`). Functions of `serde_json`, `http`, `uuid`, `md5` and `std` that the
library calls carry contracts that are believed, not proved; each says so where it stands, in
`json`, `headers`, `ids`, `stream` and `text`.

## Files

The conversation of a model is kept in `{model}.json` under the state directory. A slash, a
backslash, a colon, a blank or a percent sign of the name is written as a percent sign and two
hexadecimal digits, so that each model has a file of its own.

## Environment

| Variable | Default |
|---|---|
| `OPENCODE_ZEN_BASE` | `https://opencode.ai/zen/v1` |
| `OPENCODE_API_KEY` | `public` (anonymous, free models only) |
| `OPENCODE_CLIENT` | `cli` |
| `OPENCODE_USER_AGENT` | `opencode/0.0.0` |
| `OPENCODE_SESSION_ID` | generated |
| `OPENCODE_PROJECT_ID` | derived from the working directory |
| `ZEN_STATE_DIR` | `~/.cache/opencode-zen` |
| `ZEN_LISTEN` | `127.0.0.1:8080` |
