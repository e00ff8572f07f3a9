//! Filter kinds and the in-place filter interface of a processing chain.

use vstd::prelude::*;

verus! {

/// Kinds of filters a sound can carry.
#[derive(Debug, Clone, Copy, PartialEq, Eq, Hash, Structural)]
pub enum FilterType {
    LowPass,
    HighPass,
    Reverb,
}

/// An in-place audio filter run over every block of a chain.
///
/// A filter type may describe its behaviour by three spec functions: what
/// it makes of a block of samples, and the state it is left in by
/// processing a block or by a parameter refresh.  Only a type whose
/// `obeys_filter_spec` is true is held to that description; for any other
/// type nothing is claimed beyond the length of the processed slice.  Every
/// item here has a default so that filters written outside Verus compile;
/// by default a type does not describe itself.
pub trait AudioFilter<T>: Sized {
    /// Whether this filter type's behaviour is the one its spec functions
    /// describe.
    open spec fn obeys_filter_spec() -> bool {
        false
    }

    /// The samples a filter in this state turns `samples` into.
    open spec fn processed(&self, samples: Seq<T>) -> Seq<T> {
        samples
    }

    /// The state a filter in this state is left in after processing `samples`.
    open spec fn after_process(&self, samples: Seq<T>) -> Self {
        *self
    }

    /// The state a filter in this state is left in after a parameter refresh
    /// at `sample_rate`.
    open spec fn after_update(&self, sample_rate: u32) -> Self {
        *self
    }

    /// Processes one block of interleaved samples in place.  A slice
    /// reached through `&mut` cannot change its length.
    fn process(&mut self, samples: &mut [T])
        ensures
            Self::obeys_filter_spec() ==> final(samples)@ == old(self).processed(old(samples)@),
            Self::obeys_filter_spec() ==> *final(self) == old(self).after_process(old(samples)@),
            final(samples)@.len() == old(samples)@.len(),
    ;

    /// Refreshes the filter's parameters before a block is processed.
    fn update(&mut self, sample_rate: u32)
        ensures
            Self::obeys_filter_spec() ==> *final(self) == old(self).after_update(sample_rate),
    ;
}

} // verus!
