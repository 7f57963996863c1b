use crate::error::PipelineError;
use vstd::prelude::*;

verus! {

/// The top class of a model output and its probability.
///
/// `confidence_bits` is the bit pattern of the `f32` probability, as given by
/// `f32::to_bits`.
#[derive(Debug, Clone, Copy, PartialEq, Eq, Structural)]
pub struct Prediction {
    pub class_index: usize,
    pub confidence_bits: u32,
}

pub const SIGN_BIT: u32 = 0x8000_0000;

/// Maps the bit pattern of an `f32` to an unsigned key that orders numbers as
/// their values do: negative values have their bits inverted, non-negative
/// ones get the sign bit set, and `-0.0` gets the key of `0.0`, so that equal
/// values have equal keys. NaNs are ordered as by `f32::total_cmp`.
pub open spec fn key_of(bits: u32) -> u32 {
    if bits == SIGN_BIT {
        SIGN_BIT
    } else if bits > SIGN_BIT {
        (0xFFFF_FFFFu32 - bits) as u32
    } else {
        (bits + SIGN_BIT) as u32
    }
}

/// The index of the first largest entry, by `key_of`, among the first `n`.
pub open spec fn first_max_upto(probs: Seq<u32>, n: nat) -> int
    decreases n,
{
    if n <= 1 {
        0
    } else {
        let k = first_max_upto(probs, (n - 1) as nat);
        if key_of(probs[n - 1]) > key_of(probs[k]) {
            n - 1
        } else {
            k
        }
    }
}

pub open spec fn first_max_index(probs: Seq<u32>) -> int {
    first_max_upto(probs, probs.len())
}

/// `i` holds a largest entry, and every entry before it is strictly smaller.
pub open spec fn is_first_max(probs: Seq<u32>, i: int) -> bool {
    &&& 0 <= i < probs.len()
    &&& forall|j: int| 0 <= j < probs.len() ==> key_of(#[trigger] probs[j]) <= key_of(probs[i])
    &&& forall|j: int| 0 <= j < i ==> key_of(#[trigger] probs[j]) < key_of(probs[i])
}

/// The number of classes of logits of shape `[1, classes]`; any other shape
/// is malformed.
pub open spec fn logits_class_count(shape: Seq<i64>) -> Result<int, PipelineError> {
    if shape.len() == 2 && shape[0] == 1 && shape[1] >= 0 {
        Ok(shape[1] as int)
    } else {
        Err(PipelineError::MalformedOutput)
    }
}

/// What extracting a prediction from probabilities laid out as `shape` yields.
pub open spec fn extraction(shape: Seq<i64>, probs: Seq<u32>) -> Result<Prediction, PipelineError> {
    match logits_class_count(shape) {
        Err(e) => Err(e),
        Ok(n) => if n != probs.len() {
            Err(PipelineError::MalformedOutput)
        } else if n == 0 {
            Err(PipelineError::EmptyOutput)
        } else {
            let i = first_max_index(probs);
            Ok(Prediction { class_index: i as usize, confidence_bits: probs[i] })
        },
    }
}

/// The key by which probabilities are compared.
pub fn order_key(bits: u32) -> (r: u32)
    ensures
        r == key_of(bits),
{
    if bits == SIGN_BIT {
        SIGN_BIT
    } else if bits > SIGN_BIT {
        0xFFFF_FFFF - bits
    } else {
        bits + SIGN_BIT
    }
}

proof fn lemma_first_max_upto(probs: Seq<u32>, n: nat)
    requires
        1 <= n <= probs.len(),
    ensures
        is_first_max(probs.take(n as int), first_max_upto(probs, n)),
    decreases n,
{
    let t = probs.take(n as int);
    if n > 1 {
        lemma_first_max_upto(probs, (n - 1) as nat);
        let p = probs.take(n - 1);
        assert forall|j: int| 0 <= j < n - 1 implies t[j] == #[trigger] p[j] by {}
    }
}

/// The recursive description of the first maximum and the characterisation by
/// comparisons agree.
pub proof fn lemma_first_max_index(probs: Seq<u32>)
    requires
        probs.len() > 0,
    ensures
        is_first_max(probs, first_max_index(probs)),
{
    lemma_first_max_upto(probs, probs.len());
    assert(probs.take(probs.len() as int) =~= probs);
}

/// The index of the largest probability, the lowest such index on ties; `None`
/// when there is none.
pub fn top_class(probs: &Vec<u32>) -> (r: Option<usize>)
    ensures
        probs@.len() == 0 ==> r is None,
        probs@.len() > 0 ==> r == Some(first_max_index(probs@) as usize),
        r matches Some(i) ==> is_first_max(probs@, i as int),
{
    if probs.len() == 0 {
        return None;
    }
    let mut best: usize = 0;
    let mut best_key: u32 = order_key(probs[0]);
    let mut i: usize = 1;
    while i < probs.len()
        invariant
            1 <= i <= probs@.len(),
            best as int == first_max_upto(probs@, i as nat),
            best < i,
            best_key == key_of(probs@[best as int]),
        decreases probs@.len() - i,
    {
        let k = order_key(probs[i]);
        if k > best_key {
            best = i;
            best_key = k;
        }
        i = i + 1;
    }
    proof {
        lemma_first_max_index(probs@);
    }
    Some(best)
}

/// Validates the shape of the logits: exactly `[1, classes]`, and returns the
/// number of classes.
pub fn check_logits_shape(shape: &Vec<i64>) -> (r: Result<u64, PipelineError>)
    ensures
        r matches Ok(n) ==> logits_class_count(shape@) == Ok::<int, PipelineError>(n as int),
        r is Err ==> r == Err::<u64, PipelineError>(PipelineError::MalformedOutput)
            && logits_class_count(shape@) is Err,
{
    if shape.len() == 2 && shape[0] == 1 && shape[1] >= 0 {
        Ok(shape[1] as u64)
    } else {
        Err(PipelineError::MalformedOutput)
    }
}

/// Turns the softmax probabilities of a model output, laid out as `shape`, into
/// its top class: the first index of the largest probability, with that
/// probability as the confidence.
pub fn extract(shape: &Vec<i64>, probs: &Vec<u32>) -> (r: Result<Prediction, PipelineError>)
    ensures
        r == extraction(shape@, probs@),
        r matches Ok(p) ==> is_first_max(probs@, p.class_index as int)
            && p.confidence_bits == probs@[p.class_index as int],
{
    let n = match check_logits_shape(shape) {
        Ok(n) => n,
        Err(e) => return Err(e),
    };
    if n != probs.len() as u64 {
        return Err(PipelineError::MalformedOutput);
    }
    match top_class(probs) {
        None => Err(PipelineError::EmptyOutput),
        Some(i) => {
            proof {
                lemma_first_max_index(probs@);
            }
            Ok(Prediction { class_index: i, confidence_bits: probs[i] })
        },
    }
}

/// Extraction depends on the model output alone: two extractions from the same
/// output give the same prediction.
pub proof fn lemma_extract_repeatable(
    shape: Seq<i64>,
    probs: Seq<u32>,
    first: Result<Prediction, PipelineError>,
    second: Result<Prediction, PipelineError>,
)
    requires
        first == extraction(shape, probs),
        second == extraction(shape, probs),
    ensures
        first == second,
{
}

/// Logits without dimensions or without elements never yield a class: they
/// are rejected as malformed or empty.
pub proof fn lemma_empty_logits_rejected(shape: Seq<i64>, probs: Seq<u32>)
    requires
        shape.len() == 0 || probs.len() == 0,
    ensures
        extraction(shape, probs) is Err,
        shape.len() == 0 ==> extraction(shape, probs) == Err::<Prediction, PipelineError>(
            PipelineError::MalformedOutput,
        ),
        shape == seq![1i64, 0i64] && probs.len() == 0 ==> extraction(shape, probs) == Err::<
            Prediction,
            PipelineError,
        >(PipelineError::EmptyOutput),
{
}

} // verus!
