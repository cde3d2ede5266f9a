# aether_echo

The verified core of AetherEcho, a desktop assistant that listens to the
system's audio output, detects speech, has it transcribed, and asks a chat
model for an answer that it shows in an overlay.

- `src/` — the library, verified with Verus: WAV framing and sample decoding
  (`wav`, `audio`), the voice-activity detector (`vad`), the pipeline's
  decisions (`pipeline`), shared state and settings, with the checks made
  before settings are saved (`state`), request
  building and reply interpretation for the Groq API (`groq`), the API key in
  the OS credential store, with the store reached through the access that
  the caller hands in (`keyring_store`), model locations and transcript
  assembly (`transcriber`), command logic (`commands`), the tray menu
  (`tray`) and text helpers (`text`).
- `app/` — the Tauri application around it: windows, tray, hotkeys, audio
  capture (WASAPI, Windows only), the credential store, HTTP transport, local whisper inference,
  and everything that computes on floating-point audio.
- `tests/` — tests of the library.
