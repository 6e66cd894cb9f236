//! Verified core of an OpenCLIP inference library: model directory checks,
//! download planning, ONNX input selection and image layout preparation.

pub mod error;
pub mod model_manager;
pub mod onnx;
pub mod vision;
