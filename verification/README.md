# tokio_graphql_ws

A client for the `graphql-transport-ws` subscription protocol.

- `src/` is the verified library: the protocol's messages, the client session as a
  state machine (`session.rs`: one step per incoming message, with the laws that the
  session keeps), the GraphQL result and error types, and the lookup of the url in
  a `#[graphql_ws(url = "...")]` attribute.
- `app/` is the asynchronous client around it: the websocket connection, the JSON
  encoding of the protocol's types, the client traits with their hooks, the loop
  that feeds the session and carries out its actions, and the bodies of the derive
  macros.
- `tests/` runs the library on concrete values.
