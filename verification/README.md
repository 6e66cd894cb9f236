# open_clip_inference

Running OpenCLIP vision models exported to ONNX, with the decisions of the
library proved in Verus.

- `src/` — the verified library:
  - `model_manager`: the list of files of a converted model, the check that a
    model directory is complete, the default model folder and local model
    paths, and the plan of a Hugging Face download (which file next, which
    directory results).
  - `onnx`: what the library knows of a loaded session (its input names,
    execution providers and options), input lookup, and the configuration of
    an ONNX Runtime session builder: the trusted wrappers that make the
    builder calls record the option each passes and the execution providers
    registered, and the contract states that the given providers are
    registered and the options passed once each, in order, and that nothing
    follows a refused call; what ONNX Runtime does with them is not proved.
  - `vision`: choice of resampling filter and resize mode, the vision input
    name, the batch tensor shape and the channel-plane layout of pixels.
- `app/` — ordinary Rust around it: disk and network access, the ONNX
  Runtime session and its lock, image resizing and the floating-point
  normalisation and inference.
- `tests/` — tests of the library on concrete values.
