# paintfe (verified core)

The logic of PaintFE's Paint.NET project import, browser persistence and
modal dialogs, written in Verus and proved against its contracts.

- `src/` — the verified library: `pdn` (reader reply framing, header checks,
  canvas assembly and its laws), `web_storage` (what becomes of the
  browser's localStorage answers, the mobile-browser hint), `modal_flow` (paste / close / exit dialogs as a state
  machine, with laws on the exit-save chain), `text` (string helpers).
- `app/` — ordinary Rust around it: spawning the reader process, JSON
  decoding, the thread pool shim, the clock re-exports, and on wasm32 the
  browser reads and writes (localStorage, user agent, opening a tab).
- `tests/` — tests of the library.
