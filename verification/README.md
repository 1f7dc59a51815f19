# font_loader

Loads the bundled IoskeleyMono font into DirectWrite and builds the
terminal's glyph fallback cascade.

- `src/` is the verified library (Verus): the HRESULT of
  `ERROR_INSUFFICIENT_BUFFER`, the two-call Unicode-range query protocol,
  NUL-terminated UTF-16 family names, the order of the fallback cascade,
  the bundled faces and the error context of each registration step.
- `app/` makes the DirectWrite COM calls, which are `unsafe`, and follows
  the library's decisions. It builds on Windows only.
- `tests/` exercises the library.
