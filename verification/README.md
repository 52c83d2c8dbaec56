# rustimate

A planning-poker ("estimation") session library, verified with Verus.

Users join a session, put polls to it and vote on them with cards; the server
stores sessions, members, polls and votes, and tells every connection what
changed; the browser client keeps its own picture of the session and redraws.

## Layout

- `src/` — the verified library.
  - `member`, `poll`, `session`, `profile`, `messages`: the data and the
    messages exchanged, each with a view that the contracts speak of.
  - `store`: how stored members, polls and votes change when one is written,
    with the laws of those writes (read-after-write, uniqueness of keys,
    idempotence, poll numbering), and where a session's files go.
  - `handler`: what the server does for each connection and request, as an
    ordered list of effects (messages to send, data to save).
  - `session_ctx`: everything known about one session at once.
  - `client`: the browser client's decisions: clicks to events and requests,
    server messages to changes of its picture, and what each panel shows;
    including the law that a client agreeing with the server keeps agreeing.
  - `markup`, `pages`, `client::templates`: the HTML of the pages, dialogs
    and panels, with text escaped; each template's exact output is stated.
  - `home`: the pages that need URLs from the web server's router; each asks
    for its routes one at a time, in page order, and stops at a refusal.
  - `web`: decisions of the server's pages.
  - `ids`: the UUID text of identifiers, through the `uuid` crate.
- `tests/` — tests of the library on concrete values.
- `app/` — what talks to the world: JSON/binary encodings (serde, bincode),
  the JSON file store, the loop that carries out the handler's effects, the
  floating-point poll statistics, the pages answered with the request's
  router, and the browser client's loop.
