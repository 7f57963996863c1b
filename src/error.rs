use vstd::prelude::*;

verus! {

/// The coarse error reported by the prediction service.
#[derive(Debug, Clone, Copy, PartialEq, Eq, Structural)]
pub enum PredictError {
    InvalidInput,
    InvalidModel,
    RuntimeError,
}

impl PredictError {
    pub fn new_invalid_input() -> (r: PredictError)
        ensures
            r == PredictError::InvalidInput,
    {
        PredictError::InvalidInput
    }

    pub fn new_invalid_model() -> (r: PredictError)
        ensures
            r == PredictError::InvalidModel,
    {
        PredictError::InvalidModel
    }

    pub fn new_runtime_error() -> (r: PredictError)
        ensures
            r == PredictError::RuntimeError,
    {
        PredictError::RuntimeError
    }

    /// The human-readable text of the error.
    pub fn message(&self) -> (r: &'static str)
        ensures
            r@ == match *self {
                PredictError::InvalidInput => "Invalid input"@,
                PredictError::InvalidModel => "Invalid model"@,
                PredictError::RuntimeError => "Runtime error"@,
            },
    {
        match self {
            PredictError::InvalidInput => "Invalid input",
            PredictError::InvalidModel => "Invalid model",
            PredictError::RuntimeError => "Runtime error",
        }
    }
}

/// One error kind per way a request can fail along the pipeline.
#[derive(Debug, Clone, Copy, PartialEq, Eq, Structural)]
pub enum PipelineError {
    /// Reading the request body failed.
    TransportError,
    /// The request carries no field that the collector accepts.
    MissingField,
    /// The payload is not an image that can be decoded.
    DecodeError,
    /// The model artifact is missing, corrupt or incompatible.
    ModelLoadError,
    /// The forward pass failed.
    InferenceError,
    /// The model returned something other than a single tensor.
    UnexpectedOutputShape,
    /// The logits do not have the shape `[1, classes]`.
    MalformedOutput,
    /// The logits hold no class.
    EmptyOutput,
}

/// Errors caused by what the client sent, as opposed to faults of the service.
pub open spec fn client_fault(e: PipelineError) -> bool {
    e == PipelineError::MissingField || e == PipelineError::DecodeError
}

pub open spec fn predict_error_of(e: PipelineError) -> PredictError {
    if client_fault(e) {
        PredictError::InvalidInput
    } else if e == PipelineError::ModelLoadError {
        PredictError::InvalidModel
    } else {
        PredictError::RuntimeError
    }
}

pub open spec fn detail_of(e: PipelineError) -> Seq<char> {
    match e {
        PipelineError::TransportError => "failed to read the request body"@,
        PipelineError::MissingField => "the request has no image field"@,
        PipelineError::DecodeError => "the payload is not a decodable image"@,
        PipelineError::ModelLoadError => "the model could not be loaded"@,
        PipelineError::InferenceError => "the forward pass failed"@,
        PipelineError::UnexpectedOutputShape => "the model did not return a single tensor"@,
        PipelineError::MalformedOutput => "the model output does not have shape [1, classes]"@,
        PipelineError::EmptyOutput => "the model output holds no class"@,
    }
}

pub open spec fn public_message_of(e: PipelineError) -> Seq<char> {
    if client_fault(e) {
        detail_of(e)
    } else {
        "internal server error"@
    }
}

impl PipelineError {
    /// Whether the request itself was at fault (a 4xx answer).
    pub fn is_client_error(&self) -> (r: bool)
        ensures
            r == client_fault(*self),
    {
        match self {
            PipelineError::MissingField | PipelineError::DecodeError => true,
            _ => false,
        }
    }

    /// The HTTP status that answers a request that failed this way.
    pub fn status_code(&self) -> (r: u16)
        ensures
            r == if client_fault(*self) { 400u16 } else { 500u16 },
    {
        if self.is_client_error() {
            400
        } else {
            500
        }
    }

    /// The full description, meant for the operator's log.
    pub fn detail(&self) -> (r: &'static str)
        ensures
            r@ == detail_of(*self),
    {
        match self {
            PipelineError::TransportError => "failed to read the request body",
            PipelineError::MissingField => "the request has no image field",
            PipelineError::DecodeError => "the payload is not a decodable image",
            PipelineError::ModelLoadError => "the model could not be loaded",
            PipelineError::InferenceError => "the forward pass failed",
            PipelineError::UnexpectedOutputShape => "the model did not return a single tensor",
            PipelineError::MalformedOutput => "the model output does not have shape [1, classes]",
            PipelineError::EmptyOutput => "the model output holds no class",
        }
    }

    /// The text a client may see: the detail for its own mistakes, a generic
    /// line for faults of the service.
    pub fn public_message(&self) -> (r: &'static str)
        ensures
            r@ == public_message_of(*self),
    {
        if self.is_client_error() {
            self.detail()
        } else {
            "internal server error"
        }
    }

    /// The coarse error that the service reports for this failure.
    pub fn to_predict_error(&self) -> (r: PredictError)
        ensures
            r == predict_error_of(*self),
    {
        match self {
            PipelineError::MissingField | PipelineError::DecodeError => PredictError::InvalidInput,
            PipelineError::ModelLoadError => PredictError::InvalidModel,
            _ => PredictError::RuntimeError,
        }
    }
}

} // verus!
