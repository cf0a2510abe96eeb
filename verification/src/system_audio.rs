//! Ducking of the system's output volume around a dictation session.
//!
//! A volume is a whole number of millionths of the endpoint's full scale.
//! The controller never touches the endpoint: it says what has to be read
//! from it, is told what was read, and answers with the volumes to set, one
//! per fade step. The caller sets them one by one and asks after each step
//! how to go on.

use crate::geometry::{lemma_lerp_scalar_between, lerp_scalar, round_div, round_div_u128};
use vstd::prelude::*;

verus! {

/// Full scale of the endpoint.
pub const VOLUME_FULL: u32 = 1_000_000;

/// A volume at or below this is too quiet to be faded.
pub const FADE_THRESHOLD: u32 = 10_000;

/// Share of the original volume that is left while ducked, in percent.
pub const DUCKED_VOLUME_PERCENT: u32 = 50;

/// Number of steps of one fade.
pub const FADE_STEPS: u32 = 15;

/// Length of one fade, in milliseconds.
pub const FADE_DURATION_MS: u64 = 150;

/// Pause after each step of a fade, in milliseconds.
pub const FADE_STEP_MS: u64 = 10;

/// What is remembered while the volume is ducked. At rest both fields are
/// empty; the original volume being there is what says "ducked".
#[derive(Clone, Copy, Debug, PartialEq, Eq)]
pub struct AudioState {
    pub original_volume: Option<u32>,
    pub was_muted: Option<bool>,
}

/// Why a request could not be served.
#[derive(Clone, Copy, Debug, PartialEq, Eq)]
pub enum AudioError {
    /// The endpoint's mute state could not be read.
    MuteUnavailable,
    /// The endpoint's volume could not be read.
    VolumeUnavailable,
    /// The endpoint did not take a volume of the fade.
    VolumeNotSet,
}

/// The volume to duck to from `volume`.
pub open spec fn ducked_volume(volume: u32) -> int {
    round_div(volume as int * 50, 100)
}

/// A volume held to the endpoint's scale.
pub open spec fn clamp_volume(v: int) -> int {
    if v < 0 {
        0
    } else if v > 1_000_000 {
        1_000_000
    } else {
        v
    }
}

/// The volume to set at step `step` of a fade, counted from 1.
pub open spec fn fade_level(from: u32, to: u32, step: int) -> int {
    clamp_volume(lerp_scalar(from as int, to as int, step, 15))
}

/// The volumes of a whole fade, in the order in which they are set.
pub open spec fn fade_levels(from: u32, to: u32) -> Seq<u32> {
    Seq::new(15, |i: int| fade_level(from, to, i + 1) as u32)
}

/// What comes after a step of a fade: the next volume to set, the end of the
/// fade, or the failure of the step before.
pub open spec fn fade_continuation(levels: Seq<u32>, done: int, last_set_ok: bool) -> Result<
    Option<u32>,
    AudioError,
> {
    if !last_set_ok {
        Err(AudioError::VolumeNotSet)
    } else if done < levels.len() {
        Ok(Some(levels[done]))
    } else {
        Ok(None)
    }
}

impl AudioState {
    /// Whether the volume is ducked.
    pub open spec fn ducked(self) -> bool {
        self.original_volume is Some
    }

    /// The state at rest.
    pub open spec fn at_rest() -> AudioState {
        AudioState { original_volume: None, was_muted: None }
    }

    /// Whether a request has to read the endpoint's mute state: only a
    /// request to duck that finds the volume not ducked.
    pub open spec fn wants_mute(self, duck: bool) -> bool {
        duck && !self.ducked()
    }

    /// Whether a request has to read the endpoint's volume, given what the
    /// mute state was read as: a request to duck an endpoint that is known
    /// not to be muted, and a request to restore a volume that was ducked
    /// while not muted.
    pub open spec fn wants_volume(self, duck: bool, muted: Option<bool>) -> bool {
        if duck {
            !self.ducked() && muted == Some(false)
        } else {
            self.ducked() && self.was_muted != Some(true)
        }
    }

    /// State after a request to duck, given what was read from the endpoint.
    /// A failed read records nothing.
    pub open spec fn after_duck(self, muted: Option<bool>, volume: Option<u32>) -> AudioState {
        if self.ducked() {
            self
        } else {
            match muted {
                None => self,
                Some(true) => AudioState { original_volume: Some(0), was_muted: Some(true) },
                Some(false) => match volume {
                    Some(v) => AudioState { original_volume: Some(v), was_muted: Some(false) },
                    None => self,
                },
            }
        }
    }

    /// The volumes to set after a request to duck, or the error.
    pub open spec fn duck_plan(self, muted: Option<bool>, volume: Option<u32>) -> Result<
        Seq<u32>,
        AudioError,
    > {
        if self.ducked() {
            Ok(Seq::empty())
        } else {
            match muted {
                None => Err(AudioError::MuteUnavailable),
                Some(true) => Ok(Seq::empty()),
                Some(false) => match volume {
                    Some(v) => if v > FADE_THRESHOLD {
                        Ok(fade_levels(v, ducked_volume(v) as u32))
                    } else {
                        Ok(Seq::empty())
                    },
                    None => Err(AudioError::VolumeUnavailable),
                },
            }
        }
    }

    /// State after a request to restore: the record is cleared, whether or
    /// not the volume can be faded back.
    pub open spec fn after_restore(self) -> AudioState {
        if self.ducked() {
            AudioState::at_rest()
        } else {
            self
        }
    }

    /// The volumes to set after a request to restore, or the error.
    pub open spec fn restore_plan(self, volume: Option<u32>) -> Result<Seq<u32>, AudioError> {
        match self.original_volume {
            None => Ok(Seq::empty()),
            Some(original) => if self.was_muted == Some(true) {
                Ok(Seq::empty())
            } else {
                match volume {
                    None => Err(AudioError::VolumeUnavailable),
                    Some(v) => if original > FADE_THRESHOLD {
                        Ok(fade_levels(v, original))
                    } else {
                        Ok(Seq::empty())
                    },
                }
            },
        }
    }

    pub fn new() -> (state: AudioState)
        ensures
            state == AudioState::at_rest(),
            !state.ducked(),
    {
        AudioState { original_volume: None, was_muted: None }
    }

    /// Whether the volume is ducked.
    pub fn is_ducked(&self) -> (ducked: bool)
        ensures
            ducked == self.ducked(),
    {
        self.original_volume.is_some()
    }

    /// Whether the mute state has to be read before the request is made.
    pub fn needs_mute(&self, duck: bool) -> (needed: bool)
        ensures
            needed == self.wants_mute(duck),
    {
        duck && self.original_volume.is_none()
    }

    /// Whether the volume has to be read before the request is made, given
    /// what the mute state was read as (empty if it was not read or the read
    /// failed).
    pub fn needs_volume(&self, duck: bool, muted: Option<bool>) -> (needed: bool)
        ensures
            needed == self.wants_volume(duck, muted),
    {
        if duck {
            match muted {
                Some(m) => self.original_volume.is_none() && !m,
                None => false,
            }
        } else {
            match self.was_muted {
                Some(m) => self.original_volume.is_some() && !m,
                None => self.original_volume.is_some(),
            }
        }
    }
}

/// Half of a volume, rounded to the nearest millionth.
pub fn duck_target(volume: u32) -> (target: u32)
    ensures
        target == ducked_volume(volume),
        target <= volume,
{
    let r: u128 = round_div_u128(volume as u128 * 50, 100);
    proof {
        assert(r <= volume) by (nonlinear_arith)
            requires
                r == (2 * (volume as int * 50) + 100) / 200int,
        ;
    }
    r as u32
}

/// The volume to set at one step of a fade.
pub fn fade_step(from: u32, to: u32, step: u32) -> (level: u32)
    requires
        1 <= step <= FADE_STEPS,
    ensures
        level == fade_level(from, to, step as int),
        level <= VOLUME_FULL,
{
    let rest: u128 = (FADE_STEPS - step) as u128;
    assert(from as int * rest as int <= 0xffff_ffff * 15) by (nonlinear_arith)
        requires
            0 <= from as int <= 0xffff_ffff,
            0 <= rest as int <= 15,
    ;
    assert(to as int * step as int <= 0xffff_ffff * 15) by (nonlinear_arith)
        requires
            0 <= to as int <= 0xffff_ffff,
            0 <= step as int <= 15,
    ;
    let weighted: u128 = from as u128 * rest + to as u128 * step as u128;
    assert(weighted as int == from as int * 15 + (to as int - from as int) * step as int)
        by (nonlinear_arith)
        requires
            weighted as int == from as int * rest as int + to as int * step as int,
            rest as int == 15 - step as int,
    ;
    proof {
        crate::geometry::lemma_round_div_magnitude(weighted as int, 15);
    }
    let level: u128 = round_div_u128(weighted, FADE_STEPS as u128);
    if level > VOLUME_FULL as u128 {
        VOLUME_FULL
    } else {
        level as u32
    }
}

/// The volumes of a fade from `from` to `to`: one per step, evenly spaced,
/// each held to the endpoint's scale, the last one being the target.
pub fn fade_volume(from: u32, to: u32) -> (levels: Vec<u32>)
    ensures
        levels@ == fade_levels(from, to),
        levels.len() == FADE_STEPS,
        levels[FADE_STEPS as int - 1] == clamp_volume(to as int),
{
    let mut levels: Vec<u32> = Vec::new();
    let mut step: u32 = 1;
    while step <= FADE_STEPS
        invariant
            1 <= step <= FADE_STEPS + 1,
            levels.len() == step - 1,
            forall|i: int| 0 <= i < levels.len() ==> levels[i] == fade_level(from, to, i + 1),
        decreases FADE_STEPS + 1 - step,
    {
        let level: u32 = fade_step(from, to, step);
        levels.push(level);
        step = step + 1;
    }
    proof {
        lemma_lerp_scalar_between(from as int, to as int, 15, 15);
        assert(levels@ =~= fade_levels(from, to));
    }
    levels
}

/// How to go on with a fade of which `done` volumes have been handed out.
/// `last_set_ok` says whether the endpoint took the volume handed out last;
/// before the first step it is true. A volume that was not taken ends the
/// fade with an error, so the endpoint stays at the last volume it took.
/// Otherwise the next volume is handed out, to be set and followed by a pause
/// of [`FADE_STEP_MS`], or the fade is over.
pub fn fade_next(levels: &Vec<u32>, done: usize, last_set_ok: bool) -> (next: Result<
    Option<u32>,
    AudioError,
>)
    requires
        done <= levels.len(),
    ensures
        next == fade_continuation(levels@, done as int, last_set_ok),
        !last_set_ok ==> next is Err,
        last_set_ok && done < levels.len() ==> next == Ok::<Option<u32>, AudioError>(
            Some(levels[done as int]),
        ),
        last_set_ok && done == levels.len() ==> next == Ok::<Option<u32>, AudioError>(None),
{
    if !last_set_ok {
        Err(AudioError::VolumeNotSet)
    } else if done < levels.len() {
        Ok(Some(levels[done]))
    } else {
        Ok(None)
    }
}

/// Ducks (`duck` true) or restores (`duck` false) the output volume.
///
/// `muted` and `volume` are what was just read from the endpoint, each empty
/// if the read failed; [`AudioState::needs_mute`] and
/// [`AudioState::needs_volume`] say which reads the request needs. The result
/// holds the volumes of the fade, to be set in order through [`fade_next`];
/// it is empty where there is nothing to fade.
///
/// Ducking while ducked changes nothing. Otherwise the mute state decides: if
/// it could not be read, the request fails and nothing is recorded; a muted
/// endpoint is recorded as muted and nothing is faded. For an endpoint that
/// is not muted the present volume is recorded, and faded to half if it is
/// above the threshold; if it could not be read, the request fails and
/// nothing is recorded.
///
/// Restoring at rest changes nothing. Otherwise the record is cleared, also
/// where the request then fails. If the endpoint was muted when ducked
/// nothing is set. Else the volume fades from where it is back to the
/// recorded one, if that is above the threshold; if the present volume could
/// not be read, the request fails.
pub fn set_music_muted(
    state: &mut AudioState,
    duck: bool,
    muted: Option<bool>,
    volume: Option<u32>,
) -> (plan: Result<Vec<u32>, AudioError>)
    ensures
        duck ==> *final(state) == old(state).after_duck(muted, volume),
        duck ==> match plan {
            Ok(levels) => old(state).duck_plan(muted, volume) == Ok::<Seq<u32>, AudioError>(levels@),
            Err(e) => old(state).duck_plan(muted, volume) == Err::<Seq<u32>, AudioError>(e),
        },
        !duck ==> *final(state) == old(state).after_restore(),
        !duck ==> match plan {
            Ok(levels) => old(state).restore_plan(volume) == Ok::<Seq<u32>, AudioError>(levels@),
            Err(e) => old(state).restore_plan(volume) == Err::<Seq<u32>, AudioError>(e),
        },
{
    if duck {
        if state.original_volume.is_some() {
            return Ok(Vec::new());
        }
        let is_muted: bool = match muted {
            Some(m) => m,
            None => {
                return Err(AudioError::MuteUnavailable);
            },
        };
        if is_muted {
            state.was_muted = Some(true);
            state.original_volume = Some(0);
            return Ok(Vec::new());
        }
        let current: u32 = match volume {
            Some(v) => v,
            None => {
                return Err(AudioError::VolumeUnavailable);
            },
        };
        state.original_volume = Some(current);
        state.was_muted = Some(false);
        if current > FADE_THRESHOLD {
            return Ok(fade_volume(current, duck_target(current)));
        }
        return Ok(Vec::new());
    }
    let original: u32 = match state.original_volume {
        Some(v) => v,
        None => {
            return Ok(Vec::new());
        },
    };
    let was_muted: bool = match state.was_muted {
        Some(m) => m,
        None => false,
    };
    state.original_volume = None;
    state.was_muted = None;
    if was_muted {
        return Ok(Vec::new());
    }
    let current: u32 = match volume {
        Some(v) => v,
        None => {
            return Err(AudioError::VolumeUnavailable);
        },
    };
    if original > FADE_THRESHOLD {
        return Ok(fade_volume(current, original));
    }
    Ok(Vec::new())
}

/// Every volume of a fade lies on the endpoint's scale and between the two
/// ends of the fade, as far as those lie on the scale, and the last one is
/// the target.
pub proof fn lemma_fade_stays_between(from: u32, to: u32, step: int)
    requires
        1 <= step <= FADE_STEPS,
    ensures
        0 <= fade_level(from, to, step) <= VOLUME_FULL,
        from <= to ==> clamp_volume(from as int) <= fade_level(from, to, step) <= clamp_volume(
            to as int,
        ),
        to <= from ==> clamp_volume(to as int) <= fade_level(from, to, step) <= clamp_volume(
            from as int,
        ),
        fade_level(from, to, FADE_STEPS as int) == clamp_volume(to as int),
{
    lemma_lerp_scalar_between(from as int, to as int, step, 15);
    lemma_lerp_scalar_between(from as int, to as int, 15, 15);
}

/// A fade moves in one direction only: towards its target.
pub proof fn lemma_fade_is_monotonic(from: u32, to: u32, step: int)
    requires
        1 <= step < FADE_STEPS,
    ensures
        from <= to ==> fade_level(from, to, step) <= fade_level(from, to, step + 1),
        to <= from ==> fade_level(from, to, step + 1) <= fade_level(from, to, step),
{
    let d = to - from;
    let here = from * 15 + d * step;
    let there = from * 15 + d * (step + 1);
    assert(there == here + d) by (nonlinear_arith)
        requires
            here == from * 15 + d * step,
            there == from * 15 + d * (step + 1),
    ;
    if d >= 0 {
        crate::geometry::lemma_round_div_monotonic(here, there, 15);
    }
    if d <= 0 {
        crate::geometry::lemma_round_div_monotonic(there, here, 15);
    }
}

/// A fade is carried out in order and stops at the first volume that the
/// endpoint does not take: as long as every volume is taken, step by step
/// the volumes of the plan are handed out, and after the last one the fade
/// is over; after a volume that was not taken nothing more is handed out.
pub proof fn lemma_fade_runs_in_order(levels: Seq<u32>, done: int)
    requires
        0 <= done <= levels.len(),
    ensures
        done < levels.len() ==> fade_continuation(levels, done, true) == Ok::<
            Option<u32>,
            AudioError,
        >(Some(levels[done])),
        fade_continuation(levels, levels.len() as int, true) == Ok::<Option<u32>, AudioError>(
            None,
        ),
        fade_continuation(levels, done, false) == Err::<Option<u32>, AudioError>(
            AudioError::VolumeNotSet,
        ),
{
}

/// Ducking is idempotent: once a request to duck has recorded a volume, a
/// second request, whatever the endpoint reports by then, records nothing
/// and fades nothing.
pub proof fn lemma_duck_twice_records_once(
    state: AudioState,
    muted: Option<bool>,
    volume: Option<u32>,
    muted_again: Option<bool>,
    volume_again: Option<u32>,
)
    requires
        state.duck_plan(muted, volume) is Ok,
    ensures
        state.after_duck(muted, volume).ducked(),
        state.after_duck(muted, volume).after_duck(muted_again, volume_again) == state.after_duck(
            muted,
            volume,
        ),
        state.after_duck(muted, volume).duck_plan(muted_again, volume_again) == Ok::<
            Seq<u32>,
            AudioError,
        >(Seq::empty()),
        !state.after_duck(muted, volume).wants_mute(true),
        !state.after_duck(muted, volume).wants_volume(true, muted_again),
{
}

/// Ducking a muted endpoint records that it was muted and sets no volume.
pub proof fn lemma_duck_muted_sets_nothing(state: AudioState, volume: Option<u32>)
    requires
        !state.ducked(),
    ensures
        state.after_duck(Some(true), volume) == (AudioState {
            original_volume: Some(0),
            was_muted: Some(true),
        }),
        state.duck_plan(Some(true), volume) == Ok::<Seq<u32>, AudioError>(Seq::empty()),
        !state.wants_volume(true, Some(true)),
{
}

/// Restoring after the endpoint was found muted reads nothing, sets no
/// volume, and leaves the controller at rest.
pub proof fn lemma_restore_after_muted_sets_nothing(state: AudioState, volume: Option<u32>)
    requires
        state.ducked(),
        state.was_muted == Some(true),
    ensures
        state.restore_plan(volume) == Ok::<Seq<u32>, AudioError>(Seq::empty()),
        state.after_restore() == AudioState::at_rest(),
        !state.wants_mute(false),
        !state.wants_volume(false, None),
{
}

/// Ducking a muted endpoint and restoring afterwards sets no volume at all.
pub proof fn lemma_muted_round_trip_is_silent(
    state: AudioState,
    volume: Option<u32>,
    volume_later: Option<u32>,
)
    requires
        !state.ducked(),
    ensures
        state.duck_plan(Some(true), volume) == Ok::<Seq<u32>, AudioError>(Seq::empty()),
        state.after_duck(Some(true), volume).restore_plan(volume_later) == Ok::<
            Seq<u32>,
            AudioError,
        >(Seq::empty()),
        state.after_duck(Some(true), volume).after_restore() == AudioState::at_rest(),
{
}

/// Restoring at rest is a no-op: nothing is read, nothing changes, nothing
/// is set.
pub proof fn lemma_restore_at_rest_is_noop(state: AudioState, volume: Option<u32>)
    requires
        !state.ducked(),
    ensures
        state.after_restore() == state,
        state.restore_plan(volume) == Ok::<Seq<u32>, AudioError>(Seq::empty()),
        !state.wants_mute(false),
        !state.wants_volume(false, None),
{
}

/// A request to duck fails exactly if a read that it needs has failed, and
/// then records nothing, so it can be made again.
pub proof fn lemma_failed_duck_records_nothing(
    state: AudioState,
    muted: Option<bool>,
    volume: Option<u32>,
)
    ensures
        state.duck_plan(muted, volume) is Err <==> (state.wants_mute(true) && muted is None) || (
        state.wants_volume(true, muted) && volume is None),
        state.duck_plan(muted, volume) is Err ==> state.after_duck(muted, volume) == state
            && !state.ducked(),
{
}

/// A request to restore fails exactly if it needs the volume and the read
/// has failed; the record is cleared all the same, so that no later request
/// works on stale data.
pub proof fn lemma_failed_restore_clears_the_record(state: AudioState, volume: Option<u32>)
    ensures
        state.restore_plan(volume) is Err <==> state.wants_volume(false, None) && volume is None,
        state.restore_plan(volume) is Err ==> state.after_restore() == AudioState::at_rest(),
        !state.after_restore().ducked(),
{
}

/// Ducking an audible volume fades it to half, and restoring fades it back
/// to where it was, from wherever the endpoint stands by then; afterwards the
/// controller is at rest.
pub proof fn lemma_duck_then_restore(volume: u32, current: u32)
    requires
        FADE_THRESHOLD < volume <= VOLUME_FULL,
    ensures
        ({
            let rest = AudioState::at_rest();
            let ducked = rest.after_duck(Some(false), Some(volume));
            &&& rest.duck_plan(Some(false), Some(volume)) matches Ok(down)
            &&& down.len() == FADE_STEPS
            &&& down[FADE_STEPS - 1] == ducked_volume(volume)
            &&& ducked.original_volume == Some(volume)
            &&& ducked.restore_plan(Some(current)) matches Ok(up)
            &&& up.len() == FADE_STEPS
            &&& up[FADE_STEPS - 1] == volume
            &&& ducked.after_restore() == rest
        }),
{
    crate::geometry::lemma_round_div_nearest(volume as int * 50, 100);
    let target = ducked_volume(volume) as u32;
    lemma_fade_stays_between(volume, target, 15);
    lemma_fade_stays_between(current, volume, 15);
}

} // verus!
