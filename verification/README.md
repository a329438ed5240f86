# search_api_server

The decisions of an API server that answers chat and embedding requests with a language model and
searches the web for it, written and proved in Verus.

- `src/` is the verified library.
  - `cli`: the command line and the errors that the server stops with.
  - `arguments`: what the command line must hold, and what is reported of it.
  - `models`: which models are loaded, and what is told of them.
  - `info`: what the server tells of itself.
  - `search`: the settings of the search engine.
  - `startup`: the steps from the command line to a server that serves, and to its end.
  - `path`, `routes`, `pages`: where a request goes, and how files are served.
  - `text`: numbers and lists as text.
- `tests/` runs the library.
- `app/` is the program around it: argument parsing, logging, files, the network, and the calls
  that load the models.

The library trusts four calls into other crates, each behind a private function that says what is
believed of it: `pages::guess_content_type` (`mime_guess`), `arguments::prompt_template_label`
(`chat_prompts`), and `models::build_metadata` and `models::build_chat_metadata` (`llama_core`).
