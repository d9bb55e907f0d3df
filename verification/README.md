# blog

A server-rendered blog backed by Sanity (content) and Redis (cache).

- `src/` — the verified library: the content model (`sanity::models`), the GROQ
  query and endpoint builders (`sanity::client`, `sanity::queries`), the Portable
  Text → HTML renderer (`portable_text`), the cache key scheme (`cache`), and what
  each page decides (`routes`). Character-level string helpers live in `text`.
- `app/` — the Axum server around it: HTTP and Redis I/O, serde forms of the
  content types, and the Askama page templates' handlers.
- `tests/` — tests of the library on concrete values.
