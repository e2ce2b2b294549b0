# http-relay

An HTTP relay for asynchronous producer/consumer message passing: producers POST messages,
consumers GET them, and each waits for its counterpart to arrive. What the relay decides is a
library verified with [Verus](https://github.com/verus-lang/verus); a server around it does the
networking.

## Endpoints

| Route | What it does |
|-------|--------------|
| `POST /inbox/{id}` | Stores a message and replies at once |
| `GET /inbox/{id}` | Replies with the message, or waits for one |
| `DELETE /inbox/{id}` | Acknowledges the message |
| `GET /inbox/{id}/ack` | Tells whether the message was acknowledged |
| `GET /inbox/{id}/await` | Waits for the acknowledgement |
| `POST`, `GET /link2/{id}` | Hands a message over between two requests, and caches it for retries |
| `POST`, `GET /link/{id}` | Deprecated. Hands a message over by way of an inbox entry |

Replies are `200`, `400` (the id takes more than 256 bytes), `404` (no such entry), `408` (nothing
happened in time), `500` (the message could not be stored) and `503` (too many requests wait).

## Layout

- `src/` - the library. Each request is answered in steps: a handler looks at the state and replies
  or asks to wait, and a second function replies to what the wait came to. Waiting requests are
  known by numeric handles; the library says which to wake, and with what.
- `app/` - the server: sockets, routes, channels, timeouts, logging and the command line.
- `tests/` - tests of the library as compiled.

## What is proved

The functions of the library say in their contracts what they return and change. `laws`,
`history`, `entries`, `link_handler`, `inbox_handler`, `link` and `link2` hold the properties that
span several calls: a stored message is read until it expires or is acknowledged, a handoff
delivers the producer's message and tells the producer, replacing an entry evicts nothing, a
cleanup takes away nothing that is still wanted, what a lookup gives after any history of calls,
and so on.

The calls into `rusqlite`, `bytes`, `url`, the HTTP header types and the system clock are trusted.
Each stands in a small function whose comment says what is taken for granted. Of a database in
memory the contents are tracked exactly, as far as its statements succeed; that they do is not
taken for granted. Of a database file, which other programs may write to, only the path that it
was opened on is tracked.
