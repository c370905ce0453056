//! The mathematical model of the timing state machine: what one frame-boundary
//! crossing does under each playback mode, what a whole `update` call does,
//! and the general laws of the modes.
use vstd::arithmetic::div_mod::lemma_fundamental_div_mod;
use vstd::arithmetic::div_mod::lemma_fundamental_div_mod_converse_div;
use vstd::arithmetic::div_mod::lemma_fundamental_div_mod_converse_mod;
use vstd::prelude::*;

use crate::anim::AnimationMode;

verus! {

/// The abstract value of an [`crate::AnimationState`]: the cursor into the
/// logical frame sequence, the last resolved sprite frame, the time
/// accumulated inside the current frame (nanoseconds), the `PingPong`
/// direction flag, and the termination flag.
pub struct StateModel {
    pub animation_frame_index: usize,
    pub sprite_frame_index: usize,
    pub elapsed_in_frame: u64,
    pub going_backward: bool,
    pub is_ended: bool,
}

/// The all-default state a freshly created or reset instance holds.
pub open spec fn init_state() -> StateModel {
    StateModel {
        animation_frame_index: 0,
        sprite_frame_index: 0,
        elapsed_in_frame: 0,
        going_backward: false,
        is_ended: false,
    }
}

/// The per-frame duration an update uses: the one carried by `ActionReady`,
/// otherwise the host-supplied default.
pub open spec fn effective_duration(mode: AnimationMode, default_duration: u64) -> u64 {
    match mode {
        AnimationMode::ActionReady { frame_duration } => frame_duration,
        _ => default_duration,
    }
}

/// The sprite frame shown for cursor position `idx`: the cursor is taken
/// modulo the list length, so a cursor that happens to exceed the list is
/// still resolved.
pub open spec fn frame_at(frames: Seq<usize>, idx: usize) -> usize
    recommends
        frames.len() > 0,
{
    frames[idx as int % frames.len() as int]
}

/// One frame-boundary crossing: how the triple (cursor, direction flag,
/// termination flag) moves under `mode` for a frame list of length `len`.
pub open spec fn step(mode: AnimationMode, len: nat, t: (usize, bool, bool)) -> (usize, bool, bool)
    recommends
        len >= 1,
{
    let idx = t.0;
    let backward = t.1;
    let ended = t.2;
    let on_last = idx as int >= len - 1;
    match mode {
        AnimationMode::RepeatFrom(loop_from) => if on_last {
            (loop_from, backward, ended)
        } else {
            ((idx + 1) as usize, backward, ended)
        },
        AnimationMode::Repeat => if on_last {
            (0usize, backward, ended)
        } else {
            ((idx + 1) as usize, backward, ended)
        },
        AnimationMode::PingPong => if backward {
            if idx == 0 {
                (1usize, false, ended)
            } else {
                ((idx - 1) as usize, backward, ended)
            }
        } else if on_last {
            ((idx - 1) as usize, true, ended)
        } else {
            ((idx + 1) as usize, backward, ended)
        },
        AnimationMode::Once => if on_last {
            (idx, backward, true)
        } else {
            ((idx + 1) as usize, backward, ended)
        },
        AnimationMode::ActionReady { frame_duration } => if on_last {
            (idx, backward, true)
        } else {
            ((idx + 1) as usize, backward, ended)
        },
        AnimationMode::Action => t,
    }
}

/// `k` successive frame-boundary crossings.
pub open spec fn advance_k(mode: AnimationMode, len: nat, t: (usize, bool, bool), k: nat) -> (
    usize,
    bool,
    bool,
)
    decreases k,
{
    if k == 0 {
        t
    } else {
        advance_k(mode, len, step(mode, len, t), (k - 1) as nat)
    }
}

/// What one whole `update` call does to a state: the elapsed time is added to
/// the in-frame accumulator; with no populated frame list nothing else
/// changes; otherwise the cursor crosses one frame boundary per whole
/// effective duration contained in the accumulator (catch-up), the remainder
/// stays in the accumulator, and the sprite frame is re-resolved from the
/// final cursor.
pub open spec fn spec_update(
    s: StateModel,
    frames: Option<Seq<usize>>,
    mode: AnimationMode,
    elapsed: int,
    default_duration: u64,
) -> StateModel
    recommends
        0 <= elapsed,
        s.elapsed_in_frame + elapsed <= u64::MAX,
        frames is Some ==> effective_duration(mode, default_duration) > 0,
{
    let total = s.elapsed_in_frame + elapsed;
    match frames {
        None => StateModel {
            animation_frame_index: s.animation_frame_index,
            sprite_frame_index: s.sprite_frame_index,
            elapsed_in_frame: total as u64,
            going_backward: s.going_backward,
            is_ended: s.is_ended,
        },
        Some(f) => {
            let d = effective_duration(mode, default_duration) as int;
            let t = advance_k(
                mode,
                f.len(),
                (s.animation_frame_index, s.going_backward, s.is_ended),
                (total / d) as nat,
            );
            StateModel {
                animation_frame_index: t.0,
                sprite_frame_index: frame_at(f, t.0),
                elapsed_in_frame: (total % d) as u64,
                going_backward: t.1,
                is_ended: t.2,
            }
        },
    }
}

/// Crossing one more boundary after `k` crossings is the same as crossing
/// `k` boundaries and then one more.
pub proof fn lemma_advance_k_succ(mode: AnimationMode, len: nat, t: (usize, bool, bool), k: nat)
    ensures
        advance_k(mode, len, t, k + 1) == step(mode, len, advance_k(mode, len, t, k)),
    decreases k,
{
    if k == 0 {
        assert(advance_k(mode, len, t, 1) == step(mode, len, t)) by {
            reveal_with_fuel(advance_k, 2);
        }
    } else {
        lemma_advance_k_succ(mode, len, step(mode, len, t), (k - 1) as nat);
        assert(advance_k(mode, len, t, k + 1) == advance_k(mode, len, step(mode, len, t), k));
    }
}

/// Boundary crossings compose: `a + b` crossings are `a` crossings followed
/// by `b` crossings.
pub proof fn lemma_advance_k_add(
    mode: AnimationMode,
    len: nat,
    t: (usize, bool, bool),
    a: nat,
    b: nat,
)
    ensures
        advance_k(mode, len, t, a + b) == advance_k(mode, len, advance_k(mode, len, t, a), b),
    decreases a,
{
    if a > 0 {
        lemma_advance_k_add(mode, len, step(mode, len, t), (a - 1) as nat, b);
    }
}

/// A looping mode never terminates: under `Repeat`, `RepeatFrom`, `PingPong`
/// or the inert `Action`, no number of boundary crossings ever raises the
/// termination flag.
pub proof fn lemma_looping_never_ends(mode: AnimationMode, len: nat, t: (usize, bool, bool), k: nat)
    requires
        mode is Repeat || mode is RepeatFrom || mode is PingPong || mode is Action,
    ensures
        advance_k(mode, len, t, k).2 == t.2,
    decreases k,
{
    if k > 0 {
        lemma_looping_never_ends(mode, len, step(mode, len, t), (k - 1) as nat);
    }
}

/// A completed non-looping animation is pinned: under `Once` or
/// `ActionReady`, once the cursor is on the last frame, every further
/// boundary crossing keeps the cursor and the direction flag, and any
/// crossing at all leaves the termination flag raised. Further updates are
/// thus idempotent after completion.
pub proof fn lemma_once_pinned(mode: AnimationMode, len: nat, t: (usize, bool, bool), k: nat)
    requires
        mode is Once || mode is ActionReady,
        len >= 1,
        t.0 as int >= len - 1,
    ensures
        advance_k(mode, len, t, k).0 == t.0,
        advance_k(mode, len, t, k).1 == t.1,
        advance_k(mode, len, t, k).2 == if k == 0 {
            t.2
        } else {
            true
        },
    decreases k,
{
    if k > 0 {
        lemma_once_pinned(mode, len, (t.0, t.1, true), (k - 1) as nat);
    }
}

/// The `PingPong` turn: the cursor never stands still, and each endpoint is
/// visited exactly once per direction. At index 0 going backward the
/// direction flips forward and the cursor moves to 1; on the last frame
/// going forward the direction flips backward and the cursor moves down one;
/// in every case the next cursor differs from the current one.
pub proof fn lemma_ping_pong_motion(len: nat, t: (usize, bool, bool))
    requires
        2 <= len <= usize::MAX as nat + 1,
    ensures
        step(AnimationMode::PingPong, len, t).0 != t.0,
        step(AnimationMode::PingPong, len, t).2 == t.2,
        t.0 < len ==> step(AnimationMode::PingPong, len, t).0 < len,
        t.1 && t.0 == 0 ==> step(AnimationMode::PingPong, len, t) == (1usize, false, t.2),
        !t.1 && t.0 as int >= len - 1 ==> step(AnimationMode::PingPong, len, t) == ((t.0
            - 1) as usize, true, t.2),
{
}

/// A completed `Once` or `ActionReady` animation is idempotent under further
/// updates: the cursor stays pinned at the last frame, the termination flag
/// stays raised, and the sprite frame keeps resolving to the same frame,
/// whatever elapsed time later calls bring.
pub proof fn lemma_once_update_pinned(
    s: StateModel,
    f: Seq<usize>,
    mode: AnimationMode,
    elapsed: u64,
    default_duration: u64,
)
    requires
        mode is Once || mode is ActionReady,
        f.len() >= 1,
        s.animation_frame_index as int >= f.len() - 1,
        s.is_ended,
        s.elapsed_in_frame + elapsed <= u64::MAX,
        effective_duration(mode, default_duration) > 0,
    ensures
        spec_update(s, Some(f), mode, elapsed as int, default_duration).animation_frame_index
            == s.animation_frame_index,
        spec_update(s, Some(f), mode, elapsed as int, default_duration).sprite_frame_index
            == frame_at(f, s.animation_frame_index),
        spec_update(s, Some(f), mode, elapsed as int, default_duration).going_backward
            == s.going_backward,
        spec_update(s, Some(f), mode, elapsed as int, default_duration).is_ended,
{
    let t0 = (s.animation_frame_index, s.going_backward, s.is_ended);
    let d = effective_duration(mode, default_duration) as int;
    lemma_once_pinned(mode, f.len(), t0, ((s.elapsed_in_frame + elapsed) / d) as nat);
}

/// An update under a looping or inert mode never raises the termination
/// flag, so `Repeat`, `RepeatFrom`, `PingPong` and `Action` animations play
/// on indefinitely.
pub proof fn lemma_looping_update_never_ends(
    s: StateModel,
    frames: Option<Seq<usize>>,
    mode: AnimationMode,
    elapsed: u64,
    default_duration: u64,
)
    requires
        mode is Repeat || mode is RepeatFrom || mode is PingPong || mode is Action,
        s.elapsed_in_frame + elapsed <= u64::MAX,
        frames is Some ==> effective_duration(mode, default_duration) > 0,
    ensures
        spec_update(s, frames, mode, elapsed as int, default_duration).is_ended == s.is_ended,
{
    match frames {
        None => {},
        Some(f) => {
            let d = effective_duration(mode, default_duration) as int;
            lemma_looping_never_ends(
                mode,
                f.len(),
                (s.animation_frame_index, s.going_backward, s.is_ended),
                ((s.elapsed_in_frame + elapsed) / d) as nat,
            );
        },
    }
}

/// Catch-up is exact: one update with the summed elapsed time leaves the
/// same state as two successive updates, so a single large time step crosses
/// exactly the boundaries that several small ones would.
pub proof fn lemma_update_additive(
    s: StateModel,
    frames: Option<Seq<usize>>,
    mode: AnimationMode,
    e1: u64,
    e2: u64,
    default_duration: u64,
)
    requires
        s.elapsed_in_frame + e1 + e2 <= u64::MAX,
        frames is Some ==> effective_duration(mode, default_duration) > 0,
    ensures
        spec_update(
            spec_update(s, frames, mode, e1 as int, default_duration),
            frames,
            mode,
            e2 as int,
            default_duration,
        ) == spec_update(s, frames, mode, e1 + e2, default_duration),
{
    match frames {
        None => {},
        Some(f) => {
            let d = effective_duration(mode, default_duration) as int;
            let t0 = (s.animation_frame_index, s.going_backward, s.is_ended);
            let total1 = s.elapsed_in_frame + e1;
            let k1 = total1 / d;
            let r1 = total1 % d;
            lemma_fundamental_div_mod(total1, d);
            let total2 = r1 + e2;
            let k2 = total2 / d;
            let r2 = total2 % d;
            lemma_fundamental_div_mod(total2, d);
            let total = s.elapsed_in_frame + e1 + e2;
            assert((k1 + k2) * d == k1 * d + k2 * d) by (nonlinear_arith);
            assert(d * k1 == k1 * d) by (nonlinear_arith);
            assert(d * k2 == k2 * d) by (nonlinear_arith);
            assert(total == (k1 + k2) * d + r2);
            lemma_fundamental_div_mod_converse_div(total, d, k1 + k2, r2);
            lemma_fundamental_div_mod_converse_mod(total, d, k1 + k2, r2);
            lemma_advance_k_add(mode, f.len(), t0, k1 as nat, k2 as nat);
        },
    }
}

} // verus!
