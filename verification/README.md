# word_tutor

A vocabulary tutor served over HTTP: it explains words in context, speaks
texts, draws study cards and guesses CEFR levels with the help of a language
model, and carries a small restaurant-menu service beside it.

- `src/` is the verified library (Verus): the requests put to the model and the
  reading of its answers (`openai`), the endpoint answers and the four-call
  word-card flow as a state machine (`endpoints`, `word_card`), the serverless
  gateway decisions (`gateway`), Base64 and UTF-8 (`codec`), the JSON route
  table of the restaurant service (`routes`) and the services themselves
  (`grpc_services`, `grpc`, `http_handler`).
- `app/` runs it: the HTTP server and router, the serverless entry points, the
  OpenAI client, the JSON message types and the route code generator.
- `tests/` exercises the library on concrete values.
