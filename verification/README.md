# screen-ocr

A bridge for Wayland desktops: the sender lets the user select a screen
region (`slurp`), captures it (`grim`), recognises its text locally
(Tesseract) and posts only the text and metadata to a receiver, which may
save it as a `.txt` file.

## Layout

- `src/` — the library, verified with Verus:
  - `text` — trimming, splitting, trailing-character stripping and `u32`
    reading on chars, each against an exact specification;
  - `decode`, `digest`, `request_id` — UTF-8 decoding, SHA-256 fingerprints in
    hex, and version-4 request ids, each behind a small trusted wrapper;
  - `common`, `api` — the exchanged messages and the error answers;
  - `receiver::{config, server, storage, ocr}` — defaults, body limit,
    bearer-token authorisation, submission checks, receipts, storage paths;
  - `sender::{config, capture, client, ocr, server, watch}` — defaults and
    endpoint URLs, selection geometry and capture results, reply checks,
    submissions, failure statuses, and watch-mode deduplication.
- `app/` — the programs (`screen-ocr receiver`, `screen-ocr sender [serve|once|watch]`):
  configuration files, HTTP servers and client, and running the external tools.
- `tests/` — tests of the library on concrete values.
