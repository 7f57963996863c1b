//! An image-classification inference pipeline: a payload collector, an image
//! normalizer, a logits extractor, and the errors they report.
//!
//! Floating-point values never enter this crate: a normalized tensor holds the
//! 8-bit levels `v` that stand for the elements `v / 255`, and probabilities are
//! handled as the bit patterns of `f32` values. Loading the model, the forward
//! pass, the per-channel standardisation that the model's weights expect, and
//! the softmax belong to the tensor runtime around the crate.

pub mod error;
pub mod extract;
pub mod model;
pub mod normalize;
pub mod payload;
pub mod raster;

pub use error::{PipelineError, PredictError};
pub use extract::{check_logits_shape, extract, order_key, top_class, Prediction};
pub use model::model_path;
pub use normalize::{normalize, NormalizedTensor, INPUT_EDGE, RESIZE_EDGE};
pub use payload::PayloadCollector;
pub use raster::{center_crop, to_planar, Rgb8Image};
