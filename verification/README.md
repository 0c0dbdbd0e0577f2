# rocketsocket

A client for Rocket.Chat's realtime API, written in Verus: the public functions of the library
state what they return and change, and Verus proves it. The impls that `derive` writes, such as
`Debug` and `Hash`, have no contract.

| Module | What it is |
|---|---|
| `model` | ids, timestamps, documents, stream events, the frames of the protocol, the stream catalog |
| `model::faithful` | what is written as JSON reads back the same |
| `model::determined` | what is read from JSON is one value only |
| `realtime` | the connection lifecycle, calls and replies, liveness, reconnect pacing, durable subscriptions, waiting for events |
| `cache` | an in-memory cache of rooms, users, subscriptions and messages |
| `codegen` | reading the server's stream declarations and writing the catalog from them |
| `handler` | the rules for declaring an event handler |

The library computes; it opens no socket, reads no file, starts no task and sends on no channel.
`app/` is the shell around it: sockets, channels, timers, files, JSON text, and the expansion of the
handler attribute. What a caller is to be told stands in the runner until `app/` takes and sends it.

What is not proved is named where it stands. A function marked `external_body` only calls into an
outside crate or `std` and converts what goes in and comes out; its contract says what the library
relies on. Where the result rests on the clock or on chance, the contract says only what holds of
every outcome. A spec function without a body is a name for what such a function returns.

`tests/` runs the library with the real outside crates.
