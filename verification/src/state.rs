//! The per-instance timing state and the update algorithm: once per tick the
//! host hands an animation definition, the elapsed wall-clock time and its
//! default per-frame duration to [`AnimationState::update`], and reads back
//! the frame index to render.
use vstd::arithmetic::div_mod::lemma_fundamental_div_mod_converse_div;
use vstd::arithmetic::div_mod::lemma_fundamental_div_mod_converse_mod;
use vstd::prelude::*;

use crate::anim::Animation;
use crate::anim::AnimationMode;
use crate::model::StateModel;
use crate::model::advance_k;
use crate::model::effective_duration;
use crate::model::frame_at;
use crate::model::init_state;
use crate::model::lemma_advance_k_succ;
use crate::model::spec_update;
use crate::model::step;

verus! {

/// The mutable timing cursor of one animated instance. Owned by exactly one
/// instance, mutated only by its own [`AnimationState::update`] call, and
/// abstracted by a [`StateModel`] view. Durations are nanoseconds.
#[derive(Debug, Clone, PartialEq, Eq, Structural)]
pub struct AnimationState {
    animation_frame_index: usize,
    sprite_frame_index: usize,
    elapsed_in_frame: u64,
    /// Controls `PingPong` backward frame navigation.
    going_backward: bool,
    is_ended: bool,
}

impl View for AnimationState {
    type V = StateModel;

    closed spec fn view(&self) -> StateModel {
        StateModel {
            animation_frame_index: self.animation_frame_index,
            sprite_frame_index: self.sprite_frame_index,
            elapsed_in_frame: self.elapsed_in_frame,
            going_backward: self.going_backward,
            is_ended: self.is_ended,
        }
    }
}

impl Default for AnimationState {
    /// A fresh state: every field at its default, as on spawn.
    fn default() -> (res: Self)
        ensures
            res@ == init_state(),
    {
        Self {
            animation_frame_index: 0,
            sprite_frame_index: 0,
            elapsed_in_frame: 0,
            going_backward: false,
            is_ended: false,
        }
    }
}

impl AnimationState {
    /// Create a new state.
    #[must_use]
    pub fn new() -> (res: Self)
        ensures
            res@ == init_state(),
    {
        Self::default()
    }

    /// Reset the state. Whatever updates it has been through, the animation
    /// restarts from the first frame with all-default field values, as if
    /// freshly spawned; in-progress playback, direction and termination are
    /// discarded unconditionally.
    pub fn reset(&mut self)
        ensures
            final(self)@ == init_state(),
    {
        *self = Self::default();
    }

    /// Returns the current frame index: the last resolved sprite frame.
    #[must_use]
    pub fn frame_index(&self) -> (res: usize)
        ensures
            res == self@.sprite_frame_index,
    {
        self.sprite_frame_index
    }

    /// Returns true if the animation has ended.
    #[must_use]
    pub fn is_ended(&self) -> (res: bool)
        ensures
            res == self@.is_ended,
    {
        self.is_ended
    }

    /// Returns the time accumulated inside the current frame, in nanoseconds:
    /// what a host needs to see to know that one more elapsed-time value
    /// still fits the accumulator.
    #[must_use]
    pub fn elapsed_in_frame(&self) -> (res: u64)
        ensures
            res == self@.elapsed_in_frame,
    {
        self.elapsed_in_frame
    }

    /// The sprite frame the cursor currently resolves to; frame 0 when the
    /// frame list is unpopulated.
    #[must_use]
    fn frame(&self, animation: &Animation) -> (res: usize)
        requires
            animation.wf(),
        ensures
            res == match animation.spec_frames() {
                Some(f) => frame_at(f, self@.animation_frame_index),
                None => 0usize,
            },
    {
        match &animation.frames {
            Some(frames) => frames[self.animation_frame_index % frames.len()],
            None => 0,
        }
    }

    /// Update the state by the elapsed wall-clock time (nanoseconds) since
    /// the previous call, against the given animation definition and the
    /// host's default per-frame duration.
    ///
    /// The elapsed time is added to the in-frame accumulator. With no
    /// populated frame list that is all. Otherwise the cursor crosses one
    /// frame boundary per whole effective duration accumulated — a loop, not
    /// a single conditional, so that one large time step catches up across
    /// several boundaries instead of dropping frames — and the sprite frame
    /// is re-resolved from the final cursor, exactly as [`spec_update`]
    /// states.
    ///
    /// The effective per-frame duration must be positive, or no boundary
    /// would ever be crossed; and a populated `PingPong` animation needs a
    /// second frame, or the turn at the far end would step the cursor below
    /// zero.
    pub fn update(&mut self, animation: &Animation, elapsed: u64, default_duration: u64)
        requires
            animation.wf(),
            old(self)@.elapsed_in_frame + elapsed <= u64::MAX,
            animation.frames is Some ==> effective_duration(animation.mode, default_duration) > 0,
            animation.frames is Some && animation.mode is PingPong ==> animation.frames_view().len()
                >= 2,
        ensures
            final(self)@ == spec_update(
                old(self)@,
                animation.spec_frames(),
                animation.mode,
                elapsed as int,
                default_duration,
            ),
    {
        self.elapsed_in_frame = self.elapsed_in_frame + elapsed;
        let frames: &Vec<usize> = match &animation.frames {
            Some(f) => f,
            None => {
                return ;
            },
        };
        self.sprite_frame_index = self.frame(animation);
        let frame_duration: u64 = match animation.mode {
            AnimationMode::ActionReady { frame_duration } => frame_duration,
            _ => default_duration,
        };
        let ending_frame: usize = frames.len() - 1;
        let ghost t0 = (
            old(self)@.animation_frame_index,
            old(self)@.going_backward,
            old(self)@.is_ended,
        );
        let ghost total: int = old(self)@.elapsed_in_frame + elapsed;
        let ghost mut j: int = 0;
        while self.elapsed_in_frame >= frame_duration
            invariant
                animation.wf(),
                animation.frames == Some(*frames),
                frames@.len() >= 1,
                animation.mode is PingPong ==> frames@.len() >= 2,
                ending_frame == frames@.len() - 1,
                frame_duration == effective_duration(animation.mode, default_duration),
                frame_duration > 0,
                0 <= j,
                self.elapsed_in_frame + j * frame_duration == total,
                (self.animation_frame_index, self.going_backward, self.is_ended) == advance_k(
                    animation.mode,
                    frames@.len(),
                    t0,
                    j as nat,
                ),
                self.sprite_frame_index == frame_at(frames@, self.animation_frame_index),
            decreases self.elapsed_in_frame,
        {
            let ghost before = (self.animation_frame_index, self.going_backward, self.is_ended);
            let on_last_frame = self.animation_frame_index >= ending_frame;
            match animation.mode {
                AnimationMode::RepeatFrom(loop_from) => {
                    if on_last_frame {
                        self.animation_frame_index = loop_from;
                    } else {
                        self.animation_frame_index = self.animation_frame_index + 1;
                    }
                },
                AnimationMode::Repeat => {
                    if on_last_frame {
                        self.animation_frame_index = 0;
                    } else {
                        self.animation_frame_index = self.animation_frame_index + 1;
                    }
                },
                AnimationMode::PingPong => {
                    if self.going_backward {
                        if self.animation_frame_index == 0 {
                            self.going_backward = false;
                            self.animation_frame_index = self.animation_frame_index + 1;
                        } else {
                            self.animation_frame_index = self.animation_frame_index - 1;
                        }
                    } else if on_last_frame {
                        self.going_backward = true;
                        self.animation_frame_index = self.animation_frame_index - 1;
                    } else {
                        self.animation_frame_index = self.animation_frame_index + 1;
                    }
                },
                AnimationMode::Once | AnimationMode::ActionReady { frame_duration: _ } => {
                    if on_last_frame {
                        self.is_ended = true;
                    } else {
                        self.animation_frame_index = self.animation_frame_index + 1;
                    }
                },
                AnimationMode::Action => {},
            }
            self.elapsed_in_frame = self.elapsed_in_frame - frame_duration;
            self.sprite_frame_index = self.frame(animation);
            proof {
                assert((self.animation_frame_index, self.going_backward, self.is_ended) == step(
                    animation.mode,
                    frames@.len(),
                    before,
                ));
                lemma_advance_k_succ(animation.mode, frames@.len(), t0, j as nat);
                assert((j + 1) * frame_duration == j * frame_duration + frame_duration)
                    by (nonlinear_arith);
                j = j + 1;
            }
        }
        proof {
            lemma_fundamental_div_mod_converse_div(
                total,
                frame_duration as int,
                j,
                self.elapsed_in_frame as int,
            );
            lemma_fundamental_div_mod_converse_mod(
                total,
                frame_duration as int,
                j,
                self.elapsed_in_frame as int,
            );
            assert(self@ == spec_update(
                old(self)@,
                animation.spec_frames(),
                animation.mode,
                elapsed as int,
                default_duration,
            ));
        }
    }
}

} // verus!
