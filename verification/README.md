# slack

A Slack realtime messaging client and Web API binding whose logic is verified
with Verus.

- `src/` is the verified library.
  - `json`: the JSON values that Slack sends and the `FromJson` rules by which
    the API types are read from them (a struct member by member, absent members
    as `null`, tagged enums by their `type`/`subtype` member).
  - `api`: one module per Web API family. Each method builds an `ApiRequest`
    (method name, token, query parameters) and each answer type is read with
    `decode_response`, which turns `"ok": false` into `Error::Api`.
  - `client`: the JSON payloads written on the realtime socket and the
    directory of channel, group and user ids learnt at login.
  - `run`: the decisions of the receive loop, as a step function from the
    outcome of the last action to the next action.
  - `string_map`, `text`, `error`: string maps, decimal and JSON text, errors.
- `app/` drives the library: HTTP calls, the websocket, the outgoing queue
  shared between threads, and a small example bot.
- `tests/` runs the library on the answers of the Slack API documentation.
