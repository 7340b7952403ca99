# paged_fetch

Decisions of a paginated HTTP fetch, verified with Verus.

- `src/` is the library. It holds no I/O.
  - `limits`: how many rows, how large pages and how many calls a fetch may have.
  - `target`, `request`, `error`: what is fetched, what is sent, what goes wrong.
  - `json`, `headers`: what is read of JSON values and HTTP headers. The trusted
    contracts for `serde_json` and `reqwest` are there; those for `std` are in
    `hash` and `text`.
  - `hash`, `vary`, `cache`: what a cache key is made of, and what is cached.
  - `fetch`: the fetch itself, as a state that takes in one page after another.
  - `course`: what holds of a fetch over all its pages.
- `tests/` runs the library on concrete values.
- `app/` is the asynchronous loop around the library: it renders and sends requests,
  and asks the cache.
