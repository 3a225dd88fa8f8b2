//! The synthesis engine's lifecycle: which engine calls are in order, and when.
//!
//! The engine itself is native code. This handle tracks its phase, so that it
//! is reset once before any synthesis, streams only after that reset, and is
//! closed once, never while streaming.
use vstd::prelude::*;
use crate::vtl::{GLOTTIS_LEN, TRACT_LEN};

verus! {

/// Status with which the engine's initialisation reports a failure.
pub const INIT_FAILED: i32 = 1;

/// The phase of the engine.
#[derive(Clone, Copy, Debug, PartialEq, Eq, Structural)]
pub enum EnginePhase {
    /// Initialised; not yet reset.
    Initialized,
    /// Reset with a first set of parameters; no samples produced yet.
    Reset,
    /// Producing samples.
    Streaming,
    /// The audio stream has stopped; no more samples are asked for.
    Stopped,
    /// The engine has been closed.
    Closed,
}

/// A handle to an initialised engine.
pub struct VTLApi {
    phase: EnginePhase,
    auto_calc: bool,
}

/// Whether a tract and a glottis vector have one value per parameter.
pub open spec fn full_vectors(tract_len: int, glottis_len: int) -> bool {
    tract_len == TRACT_LEN && glottis_len == GLOTTIS_LEN
}

impl VTLApi {
    pub closed spec fn phase(&self) -> EnginePhase {
        self.phase
    }

    /// Whether the engine computes the tongue root itself.
    pub closed spec fn auto_calc(&self) -> bool {
        self.auto_calc
    }

    /// The handle for an engine whose initialisation returned `init_status`:
    /// none where that status reports a failure.
    pub fn new(init_status: i32) -> (r: Option<VTLApi>)
        ensures
            r is Some <==> init_status != INIT_FAILED,
            r matches Some(api) ==> api.phase() == EnginePhase::Initialized && !api.auto_calc(),
    {
        if init_status == INIT_FAILED {
            None
        } else {
            Some(VTLApi { phase: EnginePhase::Initialized, auto_calc: false })
        }
    }

    /// The current phase.
    pub fn current_phase(&self) -> (r: EnginePhase)
        ensures
            r == self.phase(),
    {
        self.phase
    }

    /// Sets whether the engine computes the tongue root itself. This is
    /// configuration, taken before streaming starts; returns whether it was taken.
    pub fn auto_calc_tr(&mut self, auto_calc: bool) -> (r: bool)
        ensures
            r == (old(self).phase() == EnginePhase::Initialized || old(self).phase()
                == EnginePhase::Reset),
            final(self).phase() == old(self).phase(),
            final(self).auto_calc() == (if r {
                auto_calc
            } else {
                old(self).auto_calc()
            }),
    {
        if self.phase == EnginePhase::Initialized || self.phase == EnginePhase::Reset {
            self.auto_calc = auto_calc;
            true
        } else {
            false
        }
    }

    /// Resets the engine with a first set of parameters. Taken once, before any
    /// synthesis, and only with one value per parameter; returns whether it was
    /// taken.
    pub fn reset(&mut self, init_tract: &[i64], init_glottis: &[i64]) -> (r: bool)
        ensures
            r == (old(self).phase() == EnginePhase::Initialized && full_vectors(
                init_tract@.len() as int,
                init_glottis@.len() as int,
            )),
            final(self).phase() == (if r {
                EnginePhase::Reset
            } else {
                old(self).phase()
            }),
            final(self).auto_calc() == old(self).auto_calc(),
    {
        if self.phase == EnginePhase::Initialized && init_tract.len() == TRACT_LEN
            && init_glottis.len() == GLOTTIS_LEN {
            self.phase = EnginePhase::Reset;
            true
        } else {
            false
        }
    }

    /// Asks for `num_samples` samples from the given parameters: taken after the
    /// reset and before the stream stops, with one value per parameter and a count
    /// that the engine can take. Returns the count to hand to the engine, or none
    /// where the request is not taken.
    pub fn add_tract(&mut self, num_samples: usize, tract_params: &[i64], glottis_params: &[i64]) -> (r: Option<i32>)
        ensures
            r is Some <==> ((old(self).phase() == EnginePhase::Reset || old(self).phase()
                == EnginePhase::Streaming) && full_vectors(
                tract_params@.len() as int,
                glottis_params@.len() as int,
            ) && num_samples <= i32::MAX),
            r matches Some(n) ==> n == num_samples,
            final(self).phase() == (if r is Some {
                EnginePhase::Streaming
            } else {
                old(self).phase()
            }),
            final(self).auto_calc() == old(self).auto_calc(),
    {
        if (self.phase == EnginePhase::Reset || self.phase == EnginePhase::Streaming)
            && tract_params.len() == TRACT_LEN && glottis_params.len() == GLOTTIS_LEN
            && num_samples <= i32::MAX as usize {
            self.phase = EnginePhase::Streaming;
            Some(num_samples as i32)
        } else {
            None
        }
    }

    /// Records that the audio stream has stopped. Returns whether it was
    /// running or could still have been started.
    pub fn stop(&mut self) -> (r: bool)
        ensures
            r == (old(self).phase() != EnginePhase::Stopped && old(self).phase()
                != EnginePhase::Closed),
            final(self).phase() == (if old(self).phase() == EnginePhase::Closed {
                EnginePhase::Closed
            } else {
                EnginePhase::Stopped
            }),
            final(self).auto_calc() == old(self).auto_calc(),
    {
        if self.phase == EnginePhase::Closed {
            false
        } else {
            let was_open = self.phase != EnginePhase::Stopped;
            self.phase = EnginePhase::Stopped;
            was_open
        }
    }

    /// Closes the engine: taken once, and never while it streams. Returns whether
    /// it was taken.
    pub fn close(&mut self) -> (r: bool)
        ensures
            r == (old(self).phase() != EnginePhase::Streaming && old(self).phase()
                != EnginePhase::Closed),
            final(self).phase() == (if r {
                EnginePhase::Closed
            } else {
                old(self).phase()
            }),
            final(self).auto_calc() == old(self).auto_calc(),
    {
        if self.phase != EnginePhase::Streaming && self.phase != EnginePhase::Closed {
            self.phase = EnginePhase::Closed;
            true
        } else {
            false
        }
    }
}

} // verus!
