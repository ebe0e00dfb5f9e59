# dearrow_browser

The verified core of the DeArrow Browser frontend, written in Verus.

- `src/` is the library. Every function in it carries a contract that Verus proves. Calls
  into outside crates (`url`, `percent-encoding`, `regex`, `chrono`, `slab`) go through small
  wrappers whose contracts are assumed and documented where they stand.
- `tests/` exercises the library on concrete values, with the outside crates linked.
- `app/` is a small command-line front end: it reads a server status answer (JSON) and shows
  it, turns search input into the page it leads to, and builds links. It holds the
  serde-derived copies of the library's API types and the conversions to and from them.

Main modules: `numbers` (grouped and abbreviated numbers), `tasks` (the background task
manager), `metadata` and `thumbs` (the caches), `ids` and `ratelimit`, `pages`, `search`,
`web_url` and `links`, `settings`, `status_view`, `voting`, `uuid_page` and `subject_pages`
(the pages of one submission, video, channel or user), and `worker_client`,
`worker_clients` and `worker_requests` (the two sides of the thumbnail worker protocol).
