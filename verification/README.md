# ironclaw

A voice-agent gateway that bridges phone calls (Twilio media streams, 8 kHz
mu-law) and web clients to Vertex AI Gemini Live (16 kHz PCM16).

- `src/` is the library, verified with Verus: the audio codec and resampling
  (`audio_util`), the agent-profile registry and hot-reload decisions
  (`hot_reload`), the session pool and its lifecycle (`session_manager`), the
  Twilio and web bridges, the Vertex AI messages and frame handling
  (`vertex_client`), and the front end's routing decisions and the steps of
  its socket loops (`gateway`).
  `keyed` relates sequences of records with unique keys to maps, `text` holds
  small string operations, and `platform` holds the trusted calls into the
  base64, serde_json and uuid crates and into `std::path` and the system clock.
- `app/` is the server around it: the axum routes and WebSockets, the Vertex AI
  connection and authentication, the file watcher, and the serde copies of
  the library's types.
- `tests/` exercises the library on concrete values.
