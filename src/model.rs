use vstd::prelude::*;

verus! {

/// The model artifact used when no path is configured.
pub open spec fn default_model_path() -> Seq<char> {
    "model/resnet34.ot"@
}

/// Where the model artifact is read from: the configured path, or the default
/// one when none is configured.
pub fn model_path(configured: Option<String>) -> (r: String)
    ensures
        r@ == match configured {
            Some(p) => p@,
            None => default_model_path(),
        },
{
    match configured {
        Some(p) => p,
        None => "model/resnet34.ot".to_owned(),
    }
}

} // verus!
