//! A discrete frame-timing engine for sprite-sheet animation.
//!
//! Given a declarative animation definition (an ordered list of frame indices
//! plus a playback policy) and elapsed wall-clock time, the engine produces
//! the index of the frame that should currently be displayed and reports when
//! a non-looping animation has finished. A host rendering layer calls it once
//! per tick.
//!
//! All durations in this crate are plain integers counting nanoseconds, so
//! the whole engine is a pure function of its inputs.
use vstd::prelude::*;

mod anim;
mod anim_state;
mod model;
mod state;

pub use anim::ActiveAnimation;
pub use anim::Animation;
pub use anim::AnimationAsset;
pub use anim::AnimationMode;
pub use anim::Animations;
pub use anim::AnimationsAsset;
pub use anim::PopulateError;
pub use anim::ScopedAction;
pub use anim::TextureAtlasAsset;
pub use anim::lookup_from;
pub use anim::spec_lookup;
pub use anim_state::AnimationStateId;
pub use model::StateModel;
pub use model::advance_k;
pub use model::effective_duration;
pub use model::frame_at;
pub use model::init_state;
pub use model::lemma_advance_k_add;
pub use model::lemma_advance_k_succ;
pub use model::lemma_looping_never_ends;
pub use model::lemma_looping_update_never_ends;
pub use model::lemma_once_pinned;
pub use model::lemma_once_update_pinned;
pub use model::lemma_ping_pong_motion;
pub use model::lemma_update_additive;
pub use model::spec_update;
pub use model::step;
pub use state::AnimationState;

verus! {

/// Conventional default animation speed, in milliseconds per frame.
pub const FRAMES_MS: u64 = 83;

/// The same conventional default, in nanoseconds per frame: the value a host
/// passes to [`AnimationState::update`] when it has no other preference.
pub const FRAME_DURATION_NANOS: u64 = 83 * 1_000_000;

/// The three logical phases of one tick cycle, in their required order:
/// animation changes are applied, then frame lists and action durations are
/// set up (population before duration derivation, which needs a known frame
/// count), and only then are the per-instance states advanced. A host
/// scheduler must run the phases in this order; the phases themselves need no
/// further coordination.
#[derive(Debug, Clone, Copy, PartialEq, Eq, Hash)]
pub enum AnimationSets {
    ChangeAnimations,
    Setup,
    Animate,
}

} // verus!
