//! The phase-sequenced attitude generator.
//!
//! The animation cycles through three phases — pitch only, roll only, and
//! combined motion — each with a fixed duration in frames. Per frame the
//! sequencer is sampled and then advanced; reaching a phase's duration moves
//! to the next phase (cyclically) and resets the intra-phase frame counter.
//! The waveforms themselves are sines of the cycle argument; their values
//! enter the library as plain integers in thousandths (1.0 is 1000), and the
//! scaling to attitude angles is exact integer arithmetic proved here.

use vstd::prelude::*;

verus! {

/// Numeric tag of the pitch-only phase.
pub const PHASE_PITCH_ONLY: u8 = 0;

/// Numeric tag of the roll-only phase.
pub const PHASE_ROLL_ONLY: u8 = 1;

/// Numeric tag of the combined-motion phase.
pub const PHASE_COMBINED: u8 = 2;

/// How many frames the pitch-only phase lasts.
pub const PITCH_ONLY_DURATION_FRAMES: u32 = 300;

/// How many frames the roll-only phase lasts.
pub const ROLL_ONLY_DURATION_FRAMES: u32 = 300;

/// How many frames the combined phase lasts.
pub const BOTH_DURATION_FRAMES: u32 = 400;

/// Largest pitch magnitude of the animation, in hundredths of a degree.
pub const MAX_PITCH_CDEG: i32 = 2000;

/// Largest roll magnitude of the animation, in hundredths of a degree.
pub const MAX_ROLL_CDEG: i32 = 3000;

/// Scale of the sine values handed to the sampler: 1.0 is stored as 1000.
pub const SINE_MILLI_ONE: i32 = 1000;

/// One pitch/roll pair, in hundredths of a degree.
#[derive(Clone, Copy, PartialEq, Eq, Structural, Debug)]
pub struct Attitude {
    pub pitch_cdeg: i32,
    pub roll_cdeg: i32,
}

/// The only mutable state of the engine: the active phase and the frame
/// counter within it.
#[derive(Clone, Copy, PartialEq, Eq, Structural, Debug)]
pub struct AnimationState {
    pub phase: u8,
    pub frame_in_phase: u32,
}

/// Duration in frames of the phase with the given tag. Tags outside the
/// three valid ones answer with the pitch-only duration, the fallback phase.
pub open spec fn phase_duration_spec(phase: u8) -> u32 {
    if phase == PHASE_ROLL_ONLY {
        ROLL_ONLY_DURATION_FRAMES
    } else if phase == PHASE_COMBINED {
        BOTH_DURATION_FRAMES
    } else {
        PITCH_ONLY_DURATION_FRAMES
    }
}

/// The state after one advance step: an out-of-range phase resets to the
/// pitch-only phase; a counter that has run out its phase's duration moves
/// to the next phase of the cycle with a fresh counter; otherwise only the
/// counter grows.
pub open spec fn advance_spec(st: AnimationState) -> AnimationState {
    if st.phase > PHASE_COMBINED {
        AnimationState { phase: PHASE_PITCH_ONLY, frame_in_phase: 0 }
    } else if st.frame_in_phase >= phase_duration_spec(st.phase) - 1 {
        AnimationState {
            phase: if st.phase == PHASE_COMBINED {
                PHASE_PITCH_ONLY
            } else {
                (st.phase + 1) as u8
            },
            frame_in_phase: 0,
        }
    } else {
        AnimationState { phase: st.phase, frame_in_phase: (st.frame_in_phase + 1) as u32 }
    }
}

/// Pitch sample in hundredths of a degree for a sine value in thousandths.
pub open spec fn pitch_sample_cdeg(sin_milli: int) -> int {
    (MAX_PITCH_CDEG as int / SINE_MILLI_ONE as int) * sin_milli
}

/// Roll sample in hundredths of a degree for a sine value in thousandths.
pub open spec fn roll_sample_cdeg(sin_milli: int) -> int {
    (MAX_ROLL_CDEG as int / SINE_MILLI_ONE as int) * sin_milli
}

impl AnimationState {
    /// The phase tag is valid and the counter has not run out the phase.
    pub open spec fn wf(self) -> bool {
        &&& self.phase <= PHASE_COMBINED
        &&& self.frame_in_phase < phase_duration_spec(self.phase)
    }

    /// The animation starts in the pitch-only phase at frame zero.
    pub fn new() -> (r: AnimationState)
        ensures
            r == (AnimationState { phase: PHASE_PITCH_ONLY, frame_in_phase: 0 }),
            r.wf(),
    {
        AnimationState { phase: PHASE_PITCH_ONLY, frame_in_phase: 0 }
    }

    /// Duration in frames of the currently active phase.
    pub fn phase_duration(&self) -> (r: u32)
        ensures
            r == phase_duration_spec(self.phase),
    {
        if self.phase == PHASE_ROLL_ONLY {
            ROLL_ONLY_DURATION_FRAMES
        } else if self.phase == PHASE_COMBINED {
            BOTH_DURATION_FRAMES
        } else {
            PITCH_ONLY_DURATION_FRAMES
        }
    }

    /// One advance step of the sequencer, performed after each sampled frame.
    pub fn advance(&mut self)
        ensures
            *final(self) == advance_spec(*old(self)),
            final(self).wf(),
    {
        if self.phase > PHASE_COMBINED {
            self.phase = PHASE_PITCH_ONLY;
            self.frame_in_phase = 0;
        } else {
            let d: u32 = self.phase_duration();
            if self.frame_in_phase >= d - 1 {
                self.phase = if self.phase == PHASE_COMBINED {
                    PHASE_PITCH_ONLY
                } else {
                    self.phase + 1
                };
                self.frame_in_phase = 0;
            } else {
                self.frame_in_phase = self.frame_in_phase + 1;
            }
        }
    }
}

/// Sample of the pitch-only phase: pitch follows the sine, roll is zero.
pub fn sample_pitch_only(sin_milli: i32) -> (r: Attitude)
    requires
        -SINE_MILLI_ONE <= sin_milli <= SINE_MILLI_ONE,
    ensures
        r.pitch_cdeg as int == pitch_sample_cdeg(sin_milli as int),
        r.roll_cdeg == 0,
        -MAX_PITCH_CDEG <= r.pitch_cdeg <= MAX_PITCH_CDEG,
{
    Attitude { pitch_cdeg: (MAX_PITCH_CDEG / SINE_MILLI_ONE) * sin_milli, roll_cdeg: 0 }
}

/// Sample of the roll-only phase: roll follows the sine, pitch is zero.
pub fn sample_roll_only(sin_milli: i32) -> (r: Attitude)
    requires
        -SINE_MILLI_ONE <= sin_milli <= SINE_MILLI_ONE,
    ensures
        r.roll_cdeg as int == roll_sample_cdeg(sin_milli as int),
        r.pitch_cdeg == 0,
        -MAX_ROLL_CDEG <= r.roll_cdeg <= MAX_ROLL_CDEG,
{
    Attitude { pitch_cdeg: 0, roll_cdeg: (MAX_ROLL_CDEG / SINE_MILLI_ONE) * sin_milli }
}

/// Sample of the combined phase: pitch follows its sine, roll its cosine,
/// each with an independent angular speed chosen by the caller of the clock.
pub fn sample_combined(pitch_sin_milli: i32, roll_cos_milli: i32) -> (r: Attitude)
    requires
        -SINE_MILLI_ONE <= pitch_sin_milli <= SINE_MILLI_ONE,
        -SINE_MILLI_ONE <= roll_cos_milli <= SINE_MILLI_ONE,
    ensures
        r.pitch_cdeg as int == pitch_sample_cdeg(pitch_sin_milli as int),
        r.roll_cdeg as int == roll_sample_cdeg(roll_cos_milli as int),
        -MAX_PITCH_CDEG <= r.pitch_cdeg <= MAX_PITCH_CDEG,
        -MAX_ROLL_CDEG <= r.roll_cdeg <= MAX_ROLL_CDEG,
{
    Attitude {
        pitch_cdeg: (MAX_PITCH_CDEG / SINE_MILLI_ONE) * pitch_sin_milli,
        roll_cdeg: (MAX_ROLL_CDEG / SINE_MILLI_ONE) * roll_cos_milli,
    }
}

/// One sampled frame of the sequencer: the phase tag picks the waveform.
/// `cycle_sin_milli` is the sine of the single-waveform cycle argument
/// (one full turn over the phase duration); `pitch_sin_milli` and
/// `roll_cos_milli` are the sine and cosine of the combined phase's two
/// independent clocks. An out-of-range phase samples level, the value the
/// fallback phase yields at its first frame.
pub fn sample_state(
    state: &AnimationState,
    cycle_sin_milli: i32,
    pitch_sin_milli: i32,
    roll_cos_milli: i32,
) -> (r: Attitude)
    requires
        -SINE_MILLI_ONE <= cycle_sin_milli <= SINE_MILLI_ONE,
        -SINE_MILLI_ONE <= pitch_sin_milli <= SINE_MILLI_ONE,
        -SINE_MILLI_ONE <= roll_cos_milli <= SINE_MILLI_ONE,
    ensures
        state.phase == PHASE_PITCH_ONLY ==> r.pitch_cdeg as int == pitch_sample_cdeg(
            cycle_sin_milli as int,
        ) && r.roll_cdeg == 0,
        state.phase == PHASE_ROLL_ONLY ==> r.roll_cdeg as int == roll_sample_cdeg(
            cycle_sin_milli as int,
        ) && r.pitch_cdeg == 0,
        state.phase == PHASE_COMBINED ==> r.pitch_cdeg as int == pitch_sample_cdeg(
            pitch_sin_milli as int,
        ) && r.roll_cdeg as int == roll_sample_cdeg(roll_cos_milli as int),
        state.phase > PHASE_COMBINED ==> r == (Attitude { pitch_cdeg: 0, roll_cdeg: 0 }),
        -MAX_PITCH_CDEG <= r.pitch_cdeg <= MAX_PITCH_CDEG,
        -MAX_ROLL_CDEG <= r.roll_cdeg <= MAX_ROLL_CDEG,
{
    if state.phase == PHASE_PITCH_ONLY {
        sample_pitch_only(cycle_sin_milli)
    } else if state.phase == PHASE_ROLL_ONLY {
        sample_roll_only(cycle_sin_milli)
    } else if state.phase == PHASE_COMBINED {
        sample_combined(pitch_sin_milli, roll_cos_milli)
    } else {
        sample_pitch_only(0)
    }
}

/// After the roll-only phase has used up its last frame, one advance step
/// enters the combined phase at frame zero.
pub proof fn lemma_phase_transition()
    ensures
        advance_spec(
            AnimationState {
                phase: PHASE_ROLL_ONLY,
                frame_in_phase: (ROLL_ONLY_DURATION_FRAMES - 1) as u32,
            },
        ) == (AnimationState { phase: PHASE_COMBINED, frame_in_phase: 0 }),
{
}

/// After the combined phase has used up its last frame, one advance step
/// wraps back to the pitch-only phase at frame zero: the cycle is closed.
pub proof fn lemma_cyclic_wrap()
    ensures
        advance_spec(
            AnimationState {
                phase: PHASE_COMBINED,
                frame_in_phase: (BOTH_DURATION_FRAMES - 1) as u32,
            },
        ) == (AnimationState { phase: PHASE_PITCH_ONLY, frame_in_phase: 0 }),
{
}

/// Any phase tag outside the three valid ones resets the sequencer to the
/// pitch-only phase at frame zero on the next advance, whatever the counter.
pub proof fn lemma_defensive_reset(phase: u8, frame_in_phase: u32)
    requires
        phase > PHASE_COMBINED,
    ensures
        advance_spec(AnimationState { phase, frame_in_phase }) == (AnimationState {
            phase: PHASE_PITCH_ONLY,
            frame_in_phase: 0,
        }),
{
}

/// A well-formed state stays well formed across an advance step; in
/// particular the counter never reaches the phase duration, so the single
/// sine cycle of the pitch-only and roll-only phases is sampled only at
/// frames strictly inside the cycle, and the wrapped boundary is frame zero.
pub proof fn lemma_advance_preserves_wf(st: AnimationState)
    requires
        st.wf(),
    ensures
        advance_spec(st).wf(),
        advance_spec(st).frame_in_phase < phase_duration_spec(advance_spec(st).phase),
{
}

/// At the wrapped phase boundary (frame zero) the cycle argument of the
/// pitch-only and roll-only waveforms is zero; a zero sine there yields a
/// zero sampled angle, so both single-waveform phases begin and end level.
pub proof fn lemma_phase_boundary_sample_zero()
    ensures
        pitch_sample_cdeg(0) == 0,
        roll_sample_cdeg(0) == 0,
{
}

} // verus!
