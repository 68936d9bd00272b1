# facesguru

The verified core of the faces.guru backend, a local-only service that turns prompts
into images, face swaps and short videos by driving local model servers (ComfyUI,
LM Studio, a face-swap service and an image-to-video service) through a SQLite job queue.

- `src/` — the library, verified with Verus: configuration from `FG_*` variables, job
  kinds and states, request validation, media naming, the ComfyUI SDXL graph and the
  decisions taken while polling ComfyUI, the LM Studio prompts and how replies are read,
  the worker's job plans and placeholder seeds.
- `app/` — the Axum server, the SQLite queries, the HTTP clients and the worker loop
  around the library.
- `tests/` — tests of the library's public functions.
