# ebook_reader

Core library of a personal ebook reader, verified with Verus.

- `src/model.rs` — document formats, identifiers, canonical locations
  (character ranges inside a block) and their validation, chapters, blocks.
- `src/adapter.rs` — the `DocumentAdapter` interface, `adapter_for`, and
  format detection from a file path (`detect_format`).
- `src/path_text.rs` — the rules for a path's file name and extension, ASCII
  case folding, and the call into `std::path` they describe.
- `src/epub.rs`, `src/markdown.rs`, `src/pdf.rs` — the per-format adapters.
- `src/annotation.rs` — highlights and notes attached to a location.
- `src/clock.rs`, `src/uuid_text.rs` — timestamps and UUID text, with the
  calls into `chrono` and `uuid` that they rest on.
- `app/` — a command-line front end and the serde/thiserror copies of the
  library's types.
