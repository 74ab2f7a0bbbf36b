# Thaleia

A local voice assistant: wake word, voice activity detection, speech to
text (Whisper), text to speech, and a tool server (MCP) that gives a chat
assistant ears and a mouth.

- `src/` — the library, written in Verus. Every function carries a
  contract that Verus proves: the dialogue state machine (`pipeline`), the
  voice pipeline and voice activity detection (`integration`, `vad`),
  session memory, tool routing and replies (`mcp`), backend selection,
  diagnostics and WAV framing (`audio`), speech types and pronunciation
  fixes (`stt`, `tts`), download progress and sizes (`download`), whether
  the environment asks for debug output (`debug`), and text
  helpers (`text`). Public proof functions state the laws the library
  keeps (for example that a stop always returns to idle, that sustained
  silence ends speech, that memory keeps exactly the newest exchanges, and
  that WAV data decodes back to the samples written).
- `app/` — the command-line program and servers: audio devices (SDL2,
  rodio), floating-point signal processing, Whisper, downloads, and the
  stdio tool servers. It hands the library plain values and acts on what
  the library decides.
- `tests/` — tests of the library.
