use vstd::prelude::*;

verus! {

/// Errors reported by the library.
#[derive(Debug, Clone, PartialEq, Eq)]
pub enum ClipError {
    /// The model directory does not exist.
    ModelFolderNotFound(String),
    /// A file that every model directory must hold is missing.
    MissingModelFile { model_dir: String, file: String },
    /// Downloading a model from the Hugging Face hub failed.
    HfHub(String),
    /// The model or its configuration is not usable.
    Config(String),
    /// Preparing inputs or running the model failed.
    Inference(String),
    /// ONNX Runtime reported an error, with this message.
    Ort(String),
}

} // verus!
