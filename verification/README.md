# j2v

The verified core of J2V, a desktop application that listens to Japanese system
audio, transcribes it with faster-whisper and translates it to Vietnamese with a
local Ollama model.

- `src/` is the library, written in Verus. Every function carries a contract and
  is proved against it: model status and installation (an installation is a state
  machine whose outside steps the caller performs), capture-backend and loopback
  device selection, integer PCM conversions (channel down-mixing, sample-rate
  reduction, 16-bit decoding, interleaving), batching of audio for transcription,
  transcript de-duplication, and the translation pipeline's reply reading, retry
  policy, circuit breaker and context window. The `law_*` proof functions state
  properties that hold across calls.
- `tests/` runs the library on concrete values.
- `app/` is the ordinary Rust around it: audio devices and streams, files, child
  processes, HTTP, threads and channels, and the JSON shapes of the frontend and
  the helper scripts.
