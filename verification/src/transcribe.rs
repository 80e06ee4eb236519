//! The recognizers: one for whole recordings, one for streams.

use vstd::prelude::*;
use crate::protocol::{Step, StepShape};

pub mod offline;
pub mod online;

verus! {

/// A recognizer that can be asked to transcribe audio and gives records of
/// type `R`. The audio itself stays with the caller: the recognizer is told
/// how many samples there are, and answers with the first step to take. An
/// implementation says, by `first_step` and `begun`, what that step is and
/// what becomes of the recognizer.
pub trait Transcribe<R> {
    /// The first step of a transcription of `num_samples` samples, without
    /// its payload.
    spec fn first_step(&self, sample_rate: i32, num_samples: usize) -> StepShape;

    /// Whether `after` is what this recognizer becomes when a transcription
    /// of `num_samples` samples is begun on it.
    spec fn begun(&self, after: &Self, sample_rate: i32, num_samples: usize) -> bool;

    /// Begins a transcription: gives the first step, and goes on to wait
    /// for its reply.
    fn transcribe(&mut self, sample_rate: i32, num_samples: usize) -> (step: Step<R>)
        ensures
            step.shape() == old(self).first_step(sample_rate, num_samples),
            old(self).begun(final(self), sample_rate, num_samples),
    ;
}

} // verus!
