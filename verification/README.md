# codex_ios

The logic of a mobile bridge to an agent runtime, written in Verus and proved.

- `src/context.rs`, `projection.rs`, `capabilities.rs`, `store.rs`: provider-neutral conversation
  journals, their validation, their projection into a transcript and a model context, and forks.
- `src/protocol.rs`, `codec.rs`, `adapter.rs`, `outbound.rs`, `parity.rs`, `round_trip.rs`: provider
  items on their way into the journal and back, and the audit of that way.
- `src/chat.rs`, `chat_stream.rs`, `chat_laws.rs`: requests and streams of the Chat Completions API.
- `src/admission.rs`, `digest.rs`: durable admission receipts.
- `src/bridge.rs`, `registry.rs`, `commands.rs`, `turn_args.rs`, `turn_setup.rs`, `turn_loop.rs`,
  `warm_cache.rs`, `prompt.rs`, `oauth.rs`, `dynamic_tools.rs`, `uploads.rs`, `paths.rs`,
  `config_text.rs`: turns, from their arguments to their end.
- `src/transfer.rs`: uploads, rollbacks and downloads over SFTP, as machines that name the next
  operation.
- `src/json.rs`, `json_text.rs`, `text.rs`, `lists.rs`, `model.rs`: JSON documents, text, and the
  mathematical content of values.

Each type `X` has a content `XModel`, which `deep_view` gives and which the contracts speak of.
Public proof functions named `law_*` state what holds across functions.

`app/` is the program around the library: the C interface, files, sockets and threads. The agent
runtime itself is provided by the embedding program through `app/runtime.rs`.
