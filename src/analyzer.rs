use vstd::prelude::*;

use crate::config::{is_supported_transform_size, supported_transform_size};
use crate::error::AnalyzerError;
use crate::smoothing::{blend_total, fold_into, folded};

verus! {

/// An analyzer of successive audio blocks: a fixed sample rate and transform size, and one
/// smoothed bin per positive frequency, kept from call to call.
///
/// `B` is the type of a persisted bin (for a visualiser, a frequency and a smoothed
/// magnitude). The windowed transform and the per-bin blend are supplied on each call.
pub struct WasmSpectrumAnalyzer<B> {
    visualize_spectrum: Vec<B>,
    sample_rate: u32,
    fft_size: usize,
}

/// The configuration that `new` accepts: a positive sample rate and a transform size that
/// the spectrum transform supports.
pub open spec fn valid_configuration(sample_rate: u32, fft_size: usize) -> bool {
    sample_rate > 0 && supported_transform_size(fft_size as nat)
}

/// The transform accepts every block, sample rate and frequency limit.
pub open spec fn transform_total<S, N, T: Fn(Vec<S>, u32, u32, u32) -> Option<Vec<N>>>(
    transform: T,
) -> bool {
    forall|block: Vec<S>, rate: u32, lo: u32, hi: u32| #[trigger]
        transform.requires((block, rate, lo, hi))
}

/// The transform gives one outcome for each block content, sample rate and frequency limit.
pub open spec fn transform_functional<S, N, T: Fn(Vec<S>, u32, u32, u32) -> Option<Vec<N>>>(
    transform: T,
) -> bool {
    forall|b1: Vec<S>, b2: Vec<S>, rate: u32, lo: u32, hi: u32, o1: Option<Vec<N>>, o2: Option<Vec<N>>|
        #[trigger] transform.ensures((b1, rate, lo, hi), o1) && #[trigger] transform.ensures(
            (b2, rate, lo, hi),
            o2,
        ) && b1@ == b2@ ==> match (o1, o2) {
            (Some(l1), Some(l2)) => l1@ == l2@,
            (None, None) => true,
            _ => false,
        }
}

impl<B> WasmSpectrumAnalyzer<B> {
    /// The persisted bins, in ascending frequency.
    pub closed spec fn smoothed(&self) -> Seq<B> {
        self.visualize_spectrum@
    }

    /// The sample rate the analyzer was built with.
    pub closed spec fn rate(&self) -> u32 {
        self.sample_rate
    }

    /// The number of samples each call consumes.
    pub closed spec fn size(&self) -> usize {
        self.fft_size
    }

    /// A well-formed analyzer: a valid configuration and one bin per positive frequency.
    pub open spec fn wf(&self) -> bool {
        &&& valid_configuration(self.rate(), self.size())
        &&& self.smoothed().len() == self.size() / 2
    }

    /// What one call of `analyze` does to an analyzer `pre`, giving `post` and `r`.
    ///
    /// Too short a block is refused with the expected and the actual length; a spectrum that
    /// the transform refuses gives `AnalysisFailed`. Both leave the bins as they were. Otherwise
    /// the transform receives exactly the first `size()` samples, its spectrum is folded into
    /// the bins, and a copy of the new bins is returned.
    pub open spec fn analysis_step<S, N, T, F>(
        pre: Self,
        samples: Seq<S>,
        min_freq: u32,
        max_freq: u32,
        transform: T,
        blend: F,
        post: Self,
        r: Result<Vec<B>, AnalyzerError>,
    ) -> bool where T: Fn(Vec<S>, u32, u32, u32) -> Option<Vec<N>>, F: Fn(B, N) -> B {
        &&& post.rate() == pre.rate()
        &&& post.size() == pre.size()
        &&& if samples.len() < pre.size() {
            &&& r == Err::<Vec<B>, AnalyzerError>(
                AnalyzerError::InsufficientSamples { expected: pre.size(), actual: samples.len() as usize },
            )
            &&& post.smoothed() == pre.smoothed()
        } else {
            exists|block: Vec<S>, out: Option<Vec<N>>|
                #[trigger] Self::step_through(pre, samples, min_freq, max_freq, transform, blend, post, r, block, out)
        }
    }

    /// One call of `analyze` on a block long enough, in which the transform was handed
    /// `block` and gave `out`.
    pub open spec fn step_through<S, N, T, F>(
        pre: Self,
        samples: Seq<S>,
        min_freq: u32,
        max_freq: u32,
        transform: T,
        blend: F,
        post: Self,
        r: Result<Vec<B>, AnalyzerError>,
        block: Vec<S>,
        out: Option<Vec<N>>,
    ) -> bool where T: Fn(Vec<S>, u32, u32, u32) -> Option<Vec<N>>, F: Fn(B, N) -> B {
        &&& block@ == samples.take(pre.size() as int)
        &&& transform.ensures((block, pre.rate(), min_freq, max_freq), out)
        &&& match out {
            None => {
                &&& r == Err::<Vec<B>, AnalyzerError>(AnalyzerError::AnalysisFailed)
                &&& post.smoothed() == pre.smoothed()
            },
            Some(latest) => {
                &&& folded(blend, pre.smoothed(), latest@, post.smoothed())
                &&& r is Ok
                &&& r->Ok_0@ == post.smoothed()
            },
        }
    }

    /// Builds an analyzer whose every bin starts as `empty_bin`.
    ///
    /// Fails with `InvalidConfiguration` exactly when the sample rate is zero or the
    /// transform size is not a power of two between the smallest and the largest size the
    /// transform supports.
    pub fn new(sample_rate: u32, fft_size: usize, empty_bin: B) -> (r: Result<Self, AnalyzerError>)
        where B: Copy,
        ensures
            valid_configuration(sample_rate, fft_size) <==> r is Ok,
            !valid_configuration(sample_rate, fft_size) ==> r == Err::<Self, AnalyzerError>(
                AnalyzerError::InvalidConfiguration { sample_rate, transform_size: fft_size },
            ),
            r is Ok ==> {
                let a = r->Ok_0;
                &&& a.wf()
                &&& a.rate() == sample_rate
                &&& a.size() == fft_size
                &&& a.smoothed() == Seq::new((fft_size / 2) as nat, |_i: int| empty_bin)
            },
    {
        if sample_rate == 0 || !is_supported_transform_size(fft_size) {
            return Err(AnalyzerError::InvalidConfiguration { sample_rate, transform_size: fft_size });
        }
        let n: usize = fft_size / 2;
        let mut bins: Vec<B> = Vec::new();
        let mut i: usize = 0;
        while i < n
            invariant
                i <= n,
                bins@ == Seq::new(i as nat, |_i: int| empty_bin),
            decreases n - i,
        {
            bins.push(empty_bin);
            i = i + 1;
        }
        Ok(WasmSpectrumAnalyzer { visualize_spectrum: bins, sample_rate, fft_size })
    }

    /// The sample rate the analyzer was built with.
    pub fn sample_rate(&self) -> (r: u32)
        ensures
            r == self.rate(),
    {
        self.sample_rate
    }

    /// The number of samples each call of `analyze` consumes.
    pub fn fft_size(&self) -> (r: usize)
        ensures
            r == self.size(),
    {
        self.fft_size
    }

    /// The persisted bins, in ascending frequency.
    pub fn smoothed_spectrum(&self) -> (r: &Vec<B>)
        ensures
            r@ == self.smoothed(),
    {
        &self.visualize_spectrum
    }

    /// Analyzes one block of samples: checks its length, hands its first `fft_size()`
    /// samples with the sample rate and the frequency limit `[min_freq, max_freq]` to
    /// `transform` (window and spectrum), folds the spectrum into the bins with `blend`
    /// and returns a copy of the bins (see `analysis_step`).
    pub fn analyze<S, N, T, F>(
        &mut self,
        audio_samples: &Vec<S>,
        min_freq: u32,
        max_freq: u32,
        transform: T,
        blend: F,
    ) -> (r: Result<Vec<B>, AnalyzerError>)
        where S: Copy, N: Copy, B: Copy, T: Fn(Vec<S>, u32, u32, u32) -> Option<Vec<N>>, F: Fn(B, N) -> B,
        requires
            old(self).wf(),
            transform_total(transform),
            blend_total(blend),
        ensures
            final(self).wf(),
            Self::analysis_step(
                *old(self),
                audio_samples@,
                min_freq,
                max_freq,
                transform,
                blend,
                *final(self),
                r,
            ),
    {
        let n: usize = self.fft_size;
        if audio_samples.len() < n {
            return Err(AnalyzerError::InsufficientSamples { expected: n, actual: audio_samples.len() });
        }
        let mut block: Vec<S> = Vec::new();
        let mut i: usize = 0;
        while i < n
            invariant
                i <= n,
                n <= audio_samples@.len(),
                block@ == audio_samples@.take(i as int),
            decreases n - i,
        {
            block.push(audio_samples[i]);
            i = i + 1;
            assert(block@ =~= audio_samples@.take(i as int));
        }
        let ghost consumed = block;
        let out = transform(block, self.sample_rate, min_freq, max_freq);
        let ghost produced = out;
        match out {
            None => {
                let r = Err(AnalyzerError::AnalysisFailed);
                assert(Self::step_through(
                    *old(self), audio_samples@, min_freq, max_freq, transform, blend, *self, r, consumed, produced,
                ));
                r
            },
            Some(latest) => {
                fold_into(&mut self.visualize_spectrum, &latest, &blend);
                let mut snapshot: Vec<B> = Vec::new();
                let mut k: usize = 0;
                while k < self.visualize_spectrum.len()
                    invariant
                        k <= self.visualize_spectrum@.len(),
                        snapshot@ == self.visualize_spectrum@.take(k as int),
                    decreases self.visualize_spectrum@.len() - k,
                {
                    snapshot.push(self.visualize_spectrum[k]);
                    k = k + 1;
                    assert(snapshot@ =~= self.visualize_spectrum@.take(k as int));
                }
                assert(snapshot@ =~= self.visualize_spectrum@);
                let r = Ok(snapshot);
                assert(Self::step_through(
                    *old(self), audio_samples@, min_freq, max_freq, transform, blend, *self, r, consumed, produced,
                ));
                r
            },
        }
    }
}

} // verus!
