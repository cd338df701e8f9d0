# impulse_voice

A local push-to-talk dictation daemon for Wayland: a client asks it over a
Unix socket to start and stop listening; the recording is resampled to
16 kHz, trimmed of silence, transcribed by a Parakeet model running in a
Photon worker process, and typed into the focused application.

## Layout

- `src/` — the verified library (Verus):
  - `protocol.rs` — the dictation state machine (`idle`, `listening`,
    `processing`) and the events of the newline-delimited JSON protocol, with
    its laws (toggle, refusals, stop round trip);
  - `audio.rs` — one recording at a time, the five-minute capture buffer,
    device choice and listing, and the shape of the 16 kHz resampling;
  - `transcriber.rs` — model files, the silence trim, the worker's wire
    format and replies, transcript clean-up, and idle release of the worker;
  - `insertion.rs` — terminal detection, session discovery and the order in
    which typing tools are tried;
  - `paths.rs` — default socket, model and interpreter paths;
  - `text.rs` — whitespace normalisation and character helpers.
- `app/` — the program around it: command line, socket loop, CPAL
  microphone, Rubato resampling, the worker process, WAV input and the
  Wayland tools.
- `tests/` — tests of the library.

The model directory (by default
`<data home>/impulse-voice/models/parakeet-tdt-0.6b-v3-int8`) must hold the
Parakeet Redux files the Photon worker loads: `model.safetensors`,
`config.json`, `tokenizer.json` and `ternary.json`. The files of Parakeet's
ONNX export (`encoder-model.int8.onnx`, `decoder_joint-model.int8.onnx`,
`nemo128.onnx`, `vocab.txt`) are not used.

The worker's Python program is read at start-up from
`$IMPULSE_VOICE_WORKER_SCRIPT`, or from
`<data home>/impulse-voice/photon_worker.py`.
