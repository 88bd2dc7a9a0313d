# feeder

A small RSS reader: a server that stores channels and their items in
PostgreSQL and serves them over HTTP and GraphQL, two command-line tools
(`add-channel`, `update-channels`) that subscribe to feeds and poll them, and
a browser client.

`src/` is the library, verified with Verus:

- `models` — the rows of the database and the values inserted into it.
- `queries` — for each query, the rows it selects (with a specification of
  their meaning) and the decisions around it: get-or-create, insert-if-new,
  mark-read, mark-all-read.
- `feed` — from a parsed RSS document to the channel and items to insert.
- `server`, `actors`, `graphql` — the server's routes and replies.
- `frontend` — the client's requests, its page state machine and layout.
- `text` — decimal text for integers.

`app/` runs the programs: it talks to the database (diesel), serves HTTP
(actix-web) and GraphQL (juniper), fetches and parses feeds (reqwest, rss)
and renders the client (yew), handing plain values to the library.
