use vstd::prelude::*;

use crate::analyzer::{transform_functional, WasmSpectrumAnalyzer};
use crate::error::AnalyzerError;
use crate::smoothing::{blend_functional, lemma_fold_deterministic};

verus! {

/// Two outcomes of `analyze` that a caller cannot tell apart: the same error, or copies of
/// the same bins.
pub open spec fn same_outcome<B>(r1: Result<Vec<B>, AnalyzerError>, r2: Result<Vec<B>, AnalyzerError>) -> bool {
    match (r1, r2) {
        (Ok(v1), Ok(v2)) => v1@ == v2@,
        (Err(e1), Err(e2)) => e1 == e2,
        _ => false,
    }
}

/// Two analyzers that hold the same configuration and the same bins.
pub open spec fn same_state<B>(a1: WasmSpectrumAnalyzer<B>, a2: WasmSpectrumAnalyzer<B>) -> bool {
    &&& a1.rate() == a2.rate()
    &&& a1.size() == a2.size()
    &&& a1.smoothed() == a2.smoothed()
}

/// A run: `states[0]` is `start`, and call `i` of `analyze` on block `blocks[i]` takes
/// `states[i]` to `states[i + 1]`, returning `outs[i]`.
pub open spec fn run<B, S, N, T, F>(
    start: WasmSpectrumAnalyzer<B>,
    blocks: Seq<Seq<S>>,
    min_freq: u32,
    max_freq: u32,
    transform: T,
    blend: F,
    states: Seq<WasmSpectrumAnalyzer<B>>,
    outs: Seq<Result<Vec<B>, AnalyzerError>>,
) -> bool where T: Fn(Vec<S>, u32, u32, u32) -> Option<Vec<N>>, F: Fn(B, N) -> B {
    &&& states.len() == blocks.len() + 1
    &&& outs.len() == blocks.len()
    &&& states[0] == start
    &&& forall|i: int|
        0 <= i < blocks.len() ==> #[trigger] WasmSpectrumAnalyzer::<B>::analysis_step(
            states[i],
            blocks[i],
            min_freq,
            max_freq,
            transform,
            blend,
            states[i + 1],
            outs[i],
        )
}

/// Every successful call returns exactly one value per persisted bin: half the transform
/// size, whatever the samples hold.
pub proof fn lemma_output_length<B, S, N, T, F>(
    pre: WasmSpectrumAnalyzer<B>,
    samples: Seq<S>,
    min_freq: u32,
    max_freq: u32,
    transform: T,
    blend: F,
    post: WasmSpectrumAnalyzer<B>,
    r: Result<Vec<B>, AnalyzerError>,
)
    where T: Fn(Vec<S>, u32, u32, u32) -> Option<Vec<N>>, F: Fn(B, N) -> B,
    requires
        pre.wf(),
        WasmSpectrumAnalyzer::<B>::analysis_step(pre, samples, min_freq, max_freq, transform, blend, post, r),
    ensures
        post.wf(),
        r is Ok ==> r->Ok_0@.len() == pre.size() / 2,
{
}

/// A block shorter than the transform size always fails with `InsufficientSamples`, giving
/// the expected and the actual length, and leaves the analyzer exactly as it was.
pub proof fn lemma_insufficient_samples<B, S, N, T, F>(
    pre: WasmSpectrumAnalyzer<B>,
    samples: Seq<S>,
    min_freq: u32,
    max_freq: u32,
    transform: T,
    blend: F,
    post: WasmSpectrumAnalyzer<B>,
    r: Result<Vec<B>, AnalyzerError>,
)
    where T: Fn(Vec<S>, u32, u32, u32) -> Option<Vec<N>>, F: Fn(B, N) -> B,
    requires
        samples.len() < pre.size(),
        WasmSpectrumAnalyzer::<B>::analysis_step(pre, samples, min_freq, max_freq, transform, blend, post, r),
    ensures
        r == Err::<Vec<B>, AnalyzerError>(
            AnalyzerError::InsufficientSamples { expected: pre.size(), actual: samples.len() as usize },
        ),
        same_state(pre, post),
{
}

/// One call is deterministic: with a transform and a blend that are functions of their
/// arguments, analyzers in the same state fed the same block end in the same state and
/// return the same outcome.
pub proof fn lemma_step_deterministic<B, S, N, T, F>(
    pre1: WasmSpectrumAnalyzer<B>,
    pre2: WasmSpectrumAnalyzer<B>,
    samples: Seq<S>,
    min_freq: u32,
    max_freq: u32,
    transform: T,
    blend: F,
    post1: WasmSpectrumAnalyzer<B>,
    post2: WasmSpectrumAnalyzer<B>,
    r1: Result<Vec<B>, AnalyzerError>,
    r2: Result<Vec<B>, AnalyzerError>,
)
    where T: Fn(Vec<S>, u32, u32, u32) -> Option<Vec<N>>, F: Fn(B, N) -> B,
    requires
        transform_functional(transform),
        blend_functional(blend),
        same_state(pre1, pre2),
        WasmSpectrumAnalyzer::<B>::analysis_step(pre1, samples, min_freq, max_freq, transform, blend, post1, r1),
        WasmSpectrumAnalyzer::<B>::analysis_step(pre2, samples, min_freq, max_freq, transform, blend, post2, r2),
    ensures
        same_state(post1, post2),
        same_outcome(r1, r2),
{
    if samples.len() >= pre1.size() {
        let (b1, o1) = choose|block: Vec<S>, out: Option<Vec<N>>|
            #[trigger] WasmSpectrumAnalyzer::<B>::step_through(
                pre1, samples, min_freq, max_freq, transform, blend, post1, r1, block, out,
            );
        let (b2, o2) = choose|block: Vec<S>, out: Option<Vec<N>>|
            #[trigger] WasmSpectrumAnalyzer::<B>::step_through(
                pre2, samples, min_freq, max_freq, transform, blend, post2, r2, block, out,
            );
        if let (Some(l1), Some(l2)) = (o1, o2) {
            lemma_fold_deterministic(blend, pre1.smoothed(), l1@, post1.smoothed(), post2.smoothed());
        }
    }
}

/// Every property of a bin that the initial bins have and that the blend keeps (a bin that
/// has it, blended with any new value, has it again) holds of every persisted and every
/// returned bin after a call, whatever its outcome.
pub proof fn lemma_bins_keep_property<B, S, N, T, F>(
    pre: WasmSpectrumAnalyzer<B>,
    samples: Seq<S>,
    min_freq: u32,
    max_freq: u32,
    transform: T,
    blend: F,
    post: WasmSpectrumAnalyzer<B>,
    r: Result<Vec<B>, AnalyzerError>,
    good: spec_fn(B) -> bool,
)
    where T: Fn(Vec<S>, u32, u32, u32) -> Option<Vec<N>>, F: Fn(B, N) -> B,
    requires
        forall|i: int| 0 <= i < pre.smoothed().len() ==> good(#[trigger] pre.smoothed()[i]),
        forall|b: B, n: N, x: B| good(b) && #[trigger] blend.ensures((b, n), x) ==> good(x),
        WasmSpectrumAnalyzer::<B>::analysis_step(pre, samples, min_freq, max_freq, transform, blend, post, r),
    ensures
        forall|i: int| 0 <= i < post.smoothed().len() ==> good(#[trigger] post.smoothed()[i]),
        r is Ok ==> forall|i: int| 0 <= i < r->Ok_0@.len() ==> good(#[trigger] r->Ok_0@[i]),
{
    if samples.len() >= pre.size() {
        let (b, o) = choose|block: Vec<S>, out: Option<Vec<N>>|
            #[trigger] WasmSpectrumAnalyzer::<B>::step_through(
                pre, samples, min_freq, max_freq, transform, blend, post, r, block, out,
            );
        if let Some(latest) = o {
            assert forall|i: int| 0 <= i < post.smoothed().len() implies good(#[trigger] post.smoothed()[i]) by {
                assert(good(pre.smoothed()[i]));
                if i < latest@.len() {
                    assert(blend.ensures((pre.smoothed()[i], latest@[i]), post.smoothed()[i]));
                }
            }
        }
    }
}

/// Whole runs are deterministic: with a transform and a blend that are functions of their
/// arguments, two runs over the same blocks from analyzers in the same state (two freshly
/// built with the same arguments, say) pass through the same states and return the same
/// outcomes, call after call.
pub proof fn lemma_run_deterministic<B, S, N, T, F>(
    start1: WasmSpectrumAnalyzer<B>,
    start2: WasmSpectrumAnalyzer<B>,
    blocks: Seq<Seq<S>>,
    min_freq: u32,
    max_freq: u32,
    transform: T,
    blend: F,
    states1: Seq<WasmSpectrumAnalyzer<B>>,
    states2: Seq<WasmSpectrumAnalyzer<B>>,
    outs1: Seq<Result<Vec<B>, AnalyzerError>>,
    outs2: Seq<Result<Vec<B>, AnalyzerError>>,
)
    where T: Fn(Vec<S>, u32, u32, u32) -> Option<Vec<N>>, F: Fn(B, N) -> B,
    requires
        transform_functional(transform),
        blend_functional(blend),
        same_state(start1, start2),
        run(start1, blocks, min_freq, max_freq, transform, blend, states1, outs1),
        run(start2, blocks, min_freq, max_freq, transform, blend, states2, outs2),
    ensures
        forall|i: int| 0 <= i <= blocks.len() ==> same_state(#[trigger] states1[i], states2[i]),
        forall|i: int| 0 <= i < blocks.len() ==> same_outcome(#[trigger] outs1[i], outs2[i]),
    decreases blocks.len(),
{
    if blocks.len() > 0 {
        let k = blocks.len() - 1;
        lemma_run_deterministic(
            start1,
            start2,
            blocks.take(k),
            min_freq,
            max_freq,
            transform,
            blend,
            states1.take(k + 1),
            states2.take(k + 1),
            outs1.take(k),
            outs2.take(k),
        );
        assert(same_state(states1[k], states2[k])) by {
            assert(states1.take(k + 1)[k] == states1[k]);
            assert(states2.take(k + 1)[k] == states2[k]);
        }
        lemma_step_deterministic(
            states1[k],
            states2[k],
            blocks[k],
            min_freq,
            max_freq,
            transform,
            blend,
            states1[k + 1],
            states2[k + 1],
            outs1[k],
            outs2[k],
        );
        assert forall|i: int| 0 <= i <= blocks.len() implies same_state(#[trigger] states1[i], states2[i]) by {
            if i < k + 1 {
                assert(states1.take(k + 1)[i] == states1[i]);
                assert(states2.take(k + 1)[i] == states2[i]);
            }
        }
        assert forall|i: int| 0 <= i < blocks.len() implies same_outcome(#[trigger] outs1[i], outs2[i]) by {
            if i < k {
                assert(outs1.take(k)[i] == outs1[i]);
                assert(outs2.take(k)[i] == outs2[i]);
            }
        }
    }
}

} // verus!
