# rusty_dungeons_and_dragons

A text-based role-playing game whose story is told by a chat model, served
over HTTP and websockets.

- `src/` is the verified library: game state (characters, story, context told
  to the chat model), the requests sent to the chat model, the room registry,
  room membership, and the models of the pages. Every function there carries a
  contract. Verus proves all of them except five trusted wrappers in
  `src/chat.rs` (`build_system_message`, `build_user_message`,
  `build_chat_request`, `build_json_chat_request`, `response_format_from_json`),
  whose bodies call async-openai's builders and `serde_json::from_str` and whose
  contracts are taken as given.
- `app/` is the server around it: axum routes, websocket relays, tokio tasks,
  askama templates, the OpenAI client and the JSON forms read with serde.
- `tests/` runs the library on concrete values.
