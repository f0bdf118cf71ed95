# edge_ort_runtime

A capability-oriented speech runtime (VAD → ASR → optional translation →
optional TTS) whose decision logic is verified with Verus.

- `src/` — the verified library: language metadata, profiles and model
  manifests, execution-provider selection, node configuration (ASR, MT,
  SLM, TTS), VAD windowing, audio queues and file sources, the pipeline
  driver (state and event → next action), the desktop front end's state,
  and the text utilities behind transcript cleaning and summaries.
- `app/` — the `listen` program around it: command line, JSON files,
  ONNX Runtime sessions and inference, whisper.cpp decoding, PipeWire
  capture and playback, float signal processing, and the mobile embedding.
- `tests/` — tests of the library's public functions.

The ggml Whisper backend (`whisper-rs`) and PipeWire (`pipewire`) need
cmake and libpipewire to build.
