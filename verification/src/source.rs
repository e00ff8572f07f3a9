//! Decodable sound assets and the block-based processing chain, which pulls
//! interleaved samples from an input stream one block at a time, runs every
//! filter over the block, and hands the processed samples out one by one.

use crate::buffer::{min_nat, BlockBuffer};
use crate::config::SonusControl;
use crate::filter::AudioFilter;
use std::sync::Arc;
use vstd::prelude::*;
use vstd::std_specs::iter::IteratorSpec;

verus! {

/// Decodable audio asset wrapping raw audio bytes and the handle of the
/// control panel (by default a [`SonusControl`]) its decoder reads.
pub struct SonusSource<C = SonusControl> {
    pub bytes: Arc<[u8]>,
    pub control: Arc<C>,
}

impl<C> SonusSource<C> {
    /// Creates a new `SonusSource` asset.
    pub fn new(bytes: Arc<[u8]>, control: Arc<C>) -> (source: Self)
        ensures
            source.bytes == bytes,
            source.control == control,
    {
        SonusSource { bytes, control }
    }
}

/// Channel count of a processing chain's output: a mono input whose block
/// is upmixed for stereo panning plays on two channels, any other input on
/// its own channels.
pub fn output_channels(input_channels: u16, stereo_upmix: bool) -> (channels: u16)
    ensures
        channels == if stereo_upmix { 2 } else { input_channels },
{
    if stereo_upmix {
        2
    } else {
        input_channels
    }
}

/// Number of samples of the output's current span: an upmixed input yields
/// two output samples for each of its own.
pub fn output_span_len(input_span_len: Option<usize>, stereo_upmix: bool) -> (len: Option<usize>)
    requires
        stereo_upmix && input_span_len is Some ==> input_span_len.unwrap() * 2 <= usize::MAX,
    ensures
        len is Some <==> input_span_len is Some,
        len is Some ==> len.unwrap() == if stereo_upmix {
            input_span_len.unwrap() * 2
        } else {
            input_span_len.unwrap() as int
        },
{
    match input_span_len {
        Some(n) => {
            if stereo_upmix {
                Some(n * 2)
            } else {
                Some(n)
            }
        },
        None => None,
    }
}

/// `Some(x)` as a sequence of one element, `None` as the empty sequence.
pub open spec fn option_seq<S>(o: Option<S>) -> Seq<S> {
    match o {
        Some(x) => seq![x],
        None => Seq::empty(),
    }
}

/// Stages of a spatial decoder chain: those run in place over every block,
/// in the order they run, and the panning stage when it instead upmixes a
/// mono block into a stereo one.
pub struct StagePlan<S> {
    pub stages: Vec<S>,
    pub upmix: Option<S>,
}

/// Orders a decoder's optional stages: occlusion, then attenuation, then
/// panning.  Panning a mono input upmixes it into stereo, so on a mono
/// input the panning stage is set apart as the upmix stage instead of
/// running in place.
pub fn plan_stages<S>(
    occlusion: Option<S>,
    attenuation: Option<S>,
    panning: Option<S>,
    channels: u16,
) -> (plan: StagePlan<S>)
    ensures
        plan.stages@ == option_seq(occlusion) + option_seq(attenuation) + if channels == 1 {
            Seq::<S>::empty()
        } else {
            option_seq(panning)
        },
        plan.upmix == if channels == 1 {
            panning
        } else {
            None
        },
{
    let ghost occ = occlusion;
    let ghost att = attenuation;
    let ghost pan = panning;
    let mut stages: Vec<S> = Vec::new();
    if let Some(stage) = occlusion {
        stages.push(stage);
    }
    if let Some(stage) = attenuation {
        stages.push(stage);
    }
    let mut upmix: Option<S> = None;
    if let Some(stage) = panning {
        if channels == 1 {
            upmix = Some(stage);
        } else {
            stages.push(stage);
        }
    }
    proof {
        assert(stages@ =~= option_seq(occ) + option_seq(att) + if channels == 1 {
            Seq::<S>::empty()
        } else {
            option_seq(pan)
        });
    }
    StagePlan { stages, upmix }
}

/// Frames per processing block.
pub const CHAIN_BLOCK_FRAMES: u16 = 128;

/// `samples` run through every filter of `filters`, in list order.
pub open spec fn pipeline<T, F: AudioFilter<T>>(filters: Seq<F>, samples: Seq<T>) -> Seq<T>
    decreases filters.len(),
{
    if filters.len() == 0 {
        samples
    } else {
        filters.last().processed(pipeline(filters.drop_last(), samples))
    }
}

/// The states the filters of `filters` are left in after `samples` has been
/// run through them in list order: each has processed what the filters
/// before it made of `samples`.
pub open spec fn pipeline_states<T, F: AudioFilter<T>>(filters: Seq<F>, samples: Seq<T>) -> Seq<F> {
    Seq::new(
        filters.len(),
        |k: int| filters[k].after_process(pipeline(filters.take(k), samples)),
    )
}

/// Sample stream that applies a list of filters block by block.
pub struct SpatialAudioChain<T, I, F> {
    input: I,
    sample_rate: u32,
    buffer: BlockBuffer<T>,
    filters: Vec<F>,
}

impl<T: Copy, I: Iterator<Item = T>, F: AudioFilter<T>> SpatialAudioChain<T, I, F> {
    /// The input stream, in its current state.
    pub closed spec fn source(&self) -> I {
        self.input
    }

    /// The block currently being handed out.
    pub closed spec fn block(&self) -> BlockBuffer<T> {
        self.buffer
    }

    /// The filters run over every block, in the order they run.
    pub closed spec fn filter_list(&self) -> Seq<F> {
        self.filters@
    }

    /// Number of filters run over every block.
    pub open spec fn filter_count(&self) -> nat {
        self.filter_list().len()
    }

    /// Sample rate handed to the filters.
    pub closed spec fn rate(&self) -> u32 {
        self.sample_rate
    }

    /// The filters, each refreshed at the chain's sample rate, as they are
    /// before the next block is processed.
    pub open spec fn refreshed_filters(&self) -> Seq<F> {
        self.filter_list().map_values(|f: F| f.after_update(self.rate()))
    }

    /// Refreshing the filters refreshes every one of them, not only some,
    /// each at the chain's sample rate, and keeps their number and order:
    /// the k-th refreshed filter is the k-th filter after a parameter
    /// refresh at `rate()`.
    pub proof fn lemma_every_filter_refreshed(&self)
        ensures
            self.refreshed_filters().len() == self.filter_count(),
            forall|k: int|
                0 <= k < self.filter_count() ==> #[trigger] self.refreshed_filters()[k]
                    == self.filter_list()[k].after_update(self.rate()),
    {
    }

    /// Well-formedness: a well-formed block of at least one frame.
    pub open spec fn wf(&self) -> bool {
        &&& self.block().wf()
        &&& self.block().block_frames() > 0
    }

    /// Creates a chain over `input`, which has `channels` interleaved
    /// channels at `sample_rate` samples per second, processing blocks of
    /// `CHAIN_BLOCK_FRAMES` frames.
    pub fn new(input: I, channels: u16, sample_rate: u32, filters: Vec<F>) -> (chain: Self)
        requires
            channels > 0,
            sample_rate > 0,
            CHAIN_BLOCK_FRAMES * channels <= u16::MAX,
        ensures
            chain.wf(),
            chain.source() == input,
            chain.rate() == sample_rate,
            chain.block().samples() == Seq::<T>::empty(),
            chain.block().cursor() == 0,
            chain.block().block_frames() == CHAIN_BLOCK_FRAMES,
            chain.block().channel_count() == channels,
            chain.filter_list() == filters@,
    {
        Self::with_block_size(input, CHAIN_BLOCK_FRAMES, channels, sample_rate, filters)
    }

    /// Creates a chain over `input` that processes blocks of `block_size`
    /// frames; a block holds at least one frame.
    pub fn with_block_size(
        input: I,
        block_size: u16,
        channels: u16,
        sample_rate: u32,
        filters: Vec<F>,
    ) -> (chain: Self)
        requires
            channels > 0,
            sample_rate > 0,
            block_size > 0,
            block_size * channels <= u16::MAX,
        ensures
            chain.wf(),
            chain.source() == input,
            chain.rate() == sample_rate,
            chain.block().samples() == Seq::<T>::empty(),
            chain.block().cursor() == 0,
            chain.block().block_frames() == block_size,
            chain.block().channel_count() == channels,
            chain.filter_list() == filters@,
    {
        let buffer = BlockBuffer::new(block_size, channels);
        SpatialAudioChain { input, sample_rate, buffer, filters }
    }

    /// Number of interleaved channels of the output.
    pub fn channels(&self) -> (c: u16)
        ensures
            c == self.block().channel_count(),
    {
        self.buffer.channels()
    }

    /// Output sample rate.
    pub fn sample_rate(&self) -> (r: u32)
        ensures
            r == self.rate(),
    {
        self.sample_rate
    }

    /// The input stream.
    pub fn input(&self) -> (i: &I)
        ensures
            *i == self.source(),
    {
        &self.input
    }

    /// The block currently being handed out.
    pub fn buffer(&self) -> (b: &BlockBuffer<T>)
        ensures
            *b == self.block(),
    {
        &self.buffer
    }

    /// Refills the block from the input; `None`, with no filter touched, when
    /// the input has no sample left.  Otherwise refreshes every filter at the
    /// chain's sample rate, then runs every filter over the block, each once
    /// and in list order; for a filter type that describes itself
    /// (`obeys_filter_spec`), the contract states the resulting block and
    /// filter states through the filters' spec functions.
    pub fn fill_and_process_block(&mut self) -> (r: Option<()>)
        requires
            old(self).wf(),
        ensures
            final(self).wf(),
            final(self).rate() == old(self).rate(),
            final(self).filter_count() == old(self).filter_count(),
            final(self).block().cursor() == 0,
            final(self).block().block_frames() == old(self).block().block_frames(),
            final(self).block().channel_count() == old(self).block().channel_count(),
            r is None <==> final(self).block().samples().len() == 0,
            r is None ==> final(self).filter_list() == old(self).filter_list(),
            r is Some && F::obeys_filter_spec() ==> exists|raw: Seq<T>|
                {
                    &&& raw.len() == final(self).block().samples().len()
                    &&& final(self).block().samples() == pipeline(
                        old(self).refreshed_filters(),
                        raw,
                    )
                    &&& final(self).filter_list() == #[trigger] pipeline_states(
                        old(self).refreshed_filters(),
                        raw,
                    )
                    &&& forall|k: int|
                        0 <= k < old(self).filter_count() ==> final(self).filter_list()[k]
                            == old(self).filter_list()[k].after_update(
                            old(self).rate(),
                        ).after_process(pipeline(old(self).refreshed_filters().take(k), raw))
                },
            old(self).source().obeys_prophetic_iter_laws() ==> ({
                let rem = old(self).source().remaining();
                let taken = min_nat(old(self).block().sample_capacity(), rem.len());
                &&& final(self).block().samples().len() == taken
                &&& final(self).source().remaining() == rem.skip(taken as int)
                &&& final(self).source().obeys_prophetic_iter_laws()
                &&& r is Some && F::obeys_filter_spec() ==> final(self).block().samples() == pipeline(
                    old(self).refreshed_filters(),
                    rem.take(taken as int),
                )
                &&& r is Some && F::obeys_filter_spec() ==> final(self).filter_list() == pipeline_states(
                    old(self).refreshed_filters(),
                    rem.take(taken as int),
                )
                &&& old(self).filter_count() == 0 ==> final(self).block().samples()
                    == rem.take(taken as int)
            }),
    {
        self.buffer.clear();
        let ghost rem = self.input.remaining();
        self.buffer.fill_from_iter(&mut self.input);
        proof {
            if old(self).input.obeys_prophetic_iter_laws() {
                let taken = min_nat(self.buffer.sample_capacity(), rem.len());
                assert(self.buffer.samples() =~= rem.take(taken as int));
            }
        }
        if self.buffer.is_empty() {
            return None;
        }
        let ghost filled = self.buffer.samples();
        let ghost input_after_fill = self.input;
        let ghost old_filters = self.filters@;
        let ghost refreshed = old(self).refreshed_filters();
        let n = self.filters.len();
        let mut i: usize = 0;
        while i < n
            invariant
                n == self.filters@.len(),
                n == old_filters.len(),
                old_filters == old(self).filters@,
                refreshed == old(self).refreshed_filters(),
                i <= n,
                F::obeys_filter_spec() ==> forall|k: int|
                    0 <= k < i ==> self.filters@[k] == #[trigger] refreshed[k],
                forall|k: int| i <= k < n ==> self.filters@[k] == #[trigger] old_filters[k],
                self.buffer.wf(),
                self.buffer.samples() == filled,
                self.buffer.cursor() == 0,
                self.buffer.block_frames() == old(self).buffer.block_frames(),
                self.buffer.channel_count() == old(self).buffer.channel_count(),
                self.sample_rate == old(self).sample_rate,
                self.input == input_after_fill,
            decreases n - i,
        {
            self.filters[i].update(self.sample_rate);
            i = i + 1;
        }
        proof {
            if F::obeys_filter_spec() {
                assert(self.filters@ =~= refreshed);
            }
        }
        let mut j: usize = 0;
        while j < n
            invariant
                n == self.filters@.len(),
                n == refreshed.len(),
                refreshed == old(self).refreshed_filters(),
                j <= n,
                F::obeys_filter_spec() ==> forall|k: int|
                    0 <= k < j ==> self.filters@[k] == #[trigger] pipeline_states(
                        refreshed,
                        filled,
                    )[k],
                F::obeys_filter_spec() ==> forall|k: int|
                    j <= k < n ==> self.filters@[k] == #[trigger] refreshed[k],
                self.buffer.wf(),
                F::obeys_filter_spec() ==> self.buffer.samples() == pipeline(
                    refreshed.take(j as int),
                    filled,
                ),
                n == 0 ==> self.buffer.samples() == filled,
                self.buffer.samples().len() == filled.len(),
                self.buffer.cursor() == 0,
                self.buffer.block_frames() == old(self).buffer.block_frames(),
                self.buffer.channel_count() == old(self).buffer.channel_count(),
                self.sample_rate == old(self).sample_rate,
                self.input == input_after_fill,
            decreases n - j,
        {
            proof {
                assert(refreshed.take(j as int + 1).drop_last() =~= refreshed.take(j as int));
                assert(refreshed.take(j as int + 1).last() == refreshed[j as int]);
            }
            self.filters[j].process(self.buffer.as_mut_slice());
            j = j + 1;
        }
        proof {
            if F::obeys_filter_spec() {
                assert(refreshed.take(n as int) =~= refreshed);
                assert(self.filters@ =~= pipeline_states(refreshed, filled));
                assert(refreshed.take(0) =~= Seq::<F>::empty());
            }
        }
        Some(())
    }

    /// Hands out the next processed sample, refilling the block from the
    /// input once every sample of it has been handed out; `None` once the
    /// input has no sample left.
    pub fn next(&mut self) -> (r: Option<T>)
        requires
            old(self).wf(),
        ensures
            final(self).wf(),
            final(self).rate() == old(self).rate(),
            final(self).filter_count() == old(self).filter_count(),
            final(self).block().block_frames() == old(self).block().block_frames(),
            final(self).block().channel_count() == old(self).block().channel_count(),
            old(self).block().cursor() < old(self).block().samples().len() ==> {
                &&& final(self).filter_list() == old(self).filter_list()
                &&& r == Some(old(self).block().samples()[old(self).block().cursor() as int])
                &&& final(self).block().samples() == old(self).block().samples()
                &&& final(self).block().cursor() == old(self).block().cursor() + 1
                &&& final(self).source() == old(self).source()
            },
            old(self).block().cursor() >= old(self).block().samples().len() ==> {
                &&& r is None <==> final(self).block().samples().len() == 0
                &&& r is Some ==> r == Some(final(self).block().samples()[0])
                    && final(self).block().cursor() == 1
                &&& r is None ==> final(self).block().cursor() == 0
                &&& r is None ==> final(self).filter_list() == old(self).filter_list()
                &&& r is Some && F::obeys_filter_spec() ==> exists|raw: Seq<T>|
                    {
                        &&& raw.len() == final(self).block().samples().len()
                        &&& final(self).block().samples() == pipeline(
                            old(self).refreshed_filters(),
                            raw,
                        )
                        &&& final(self).filter_list() == #[trigger] pipeline_states(
                            old(self).refreshed_filters(),
                            raw,
                        )
                        &&& forall|k: int|
                            0 <= k < old(self).filter_count() ==> final(self).filter_list()[k]
                                == old(self).filter_list()[k].after_update(
                                old(self).rate(),
                            ).after_process(pipeline(old(self).refreshed_filters().take(k), raw))
                    }
                &&& old(self).source().obeys_prophetic_iter_laws() ==> ({
                    let rem = old(self).source().remaining();
                    let taken = min_nat(old(self).block().sample_capacity(), rem.len());
                    &&& r is None <==> rem.len() == 0
                    &&& final(self).block().samples().len() == taken
                    &&& final(self).source().remaining() == rem.skip(taken as int)
                    &&& r is Some && F::obeys_filter_spec() ==> final(self).block().samples() == pipeline(
                        old(self).refreshed_filters(),
                        rem.take(taken as int),
                    )
                    &&& r is Some && F::obeys_filter_spec() ==> final(self).filter_list() == pipeline_states(
                        old(self).refreshed_filters(),
                        rem.take(taken as int),
                    )
                    &&& old(self).filter_count() == 0 ==> final(self).block().samples()
                        == rem.take(taken as int)
                })
            },
            old(self).source().obeys_prophetic_iter_laws()
                ==> final(self).source().obeys_prophetic_iter_laws(),
            old(self).filter_count() == 0 && old(self).source().obeys_prophetic_iter_laws() ==> (
            match r {
                Some(x) => old(self).block().unread() + old(self).source().remaining() == seq![x]
                    + final(self).block().unread() + final(self).source().remaining(),
                None => old(self).block().unread() + old(self).source().remaining() == Seq::<
                    T,
                >::empty(),
            }),
    {
        if self.buffer.is_exhausted() {
            self.buffer.clear();
            let ghost rem = self.input.remaining();
            proof {
                let frames = self.buffer.block_frames();
                let channels = self.buffer.channel_count();
                assert(frames * channels > 0) by (nonlinear_arith)
                    requires
                        frames > 0,
                        channels > 0,
                ;
            }
            self.fill_and_process_block()?;
            proof {
                if F::obeys_filter_spec() {
                let refreshed = old(self).refreshed_filters();
                let raw = choose|raw: Seq<T>|
                    {
                        &&& raw.len() == self.buffer.samples().len()
                        &&& self.buffer.samples() == pipeline(refreshed, raw)
                        &&& self.filters@ == #[trigger] pipeline_states(refreshed, raw)
                        &&& forall|k: int|
                            0 <= k < old(self).filters@.len() ==> self.filters@[k]
                                == old(self).filters@[k].after_update(
                                old(self).sample_rate,
                            ).after_process(pipeline(refreshed.take(k), raw))
                    };
                assert(self.filters@ == pipeline_states(refreshed, raw));
                }
            }
            let sample = self.buffer.pop();
            proof {
                if old(self).filters@.len() == 0 && old(self).input.obeys_prophetic_iter_laws() {
                    let taken = min_nat(self.buffer.sample_capacity(), rem.len());
                    let s = self.buffer.samples();
                    assert(rem =~= rem.take(taken as int) + rem.skip(taken as int));
                    assert(s =~= seq![sample] + self.buffer.unread());
                }
            }
            return Some(sample);
        }
        let ghost before = self.buffer.unread();
        let sample = self.buffer.pop();
        proof {
            assert(before =~= seq![sample] + self.buffer.unread());
        }
        Some(sample)
    }
}

} // verus!
