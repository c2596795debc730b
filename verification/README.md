# stt_runtime

A local, vendor-neutral control plane for speech-to-text provider runtimes:
it detects the machine's hardware, installs, starts, supervises and stops
curated provider runtimes (faster-whisper, sherpa-onnx), and hands back a
versioned runtime connection descriptor a client uses to reach the runtime
directly.

## Layout

- `src/` — the library, verified with Verus. Every decision the control
  plane makes is here, with a contract:
  - `catalog`, `recommend`, `hardware` — the curated provider catalog,
    provider-id validation, hardware compatibility and recommendations,
    the `nvidia-smi` report reader.
  - `manager` — the runtime manager: installs, model selection and pulls,
    running instances, idle auto-stop, the bounded table of install
    operations. Process, network and filesystem work is requested as a
    step and reported back, so every state change is verified.
  - `launch`, `supervisor` — launch specifications (program, arguments,
    `VOICE_TYPER_*` environment), health URL, captured log tail.
  - `providers/` — per-engine layout: where builds and model weights are
    cached, what a local install finds, release asset names, download
    plans, what makes a cached model complete.
  - `config`, `types`, `error` — server configuration and its validation,
    descriptor and response types, error codes and messages.
  - `routes`, `cli`, `conformance`, `realtime` — how the HTTP API answers,
    the CLI's query encoding and progress reading, the protocol
    conformance checks, the realtime WebSocket session state machine.
  - `sherpad`, `manifest`, `recognizer` — the sherpa-onnx daemon's model
    registry state, its curated model manifest and recognizer settings.
  - `text`, `assoc` — string helpers and key-unique association lists
    read as maps.
- `tests/` — tests on concrete values, run against the compiled library.
- `app/` — the `stt` binary: argument parsing, the axum HTTP server,
  process spawning, downloads, filesystem probes. It hands the library
  plain values and carries out what the library decides.
