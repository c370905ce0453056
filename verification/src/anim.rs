//! The animation data model: playback modes, animation definitions, the named
//! registry, and the two one-shot setup transforms (frame-list population and
//! action-duration derivation).
use vstd::prelude::*;

verus! {

/// The playback policy of an animation: how the frame cursor advances and
/// whether playback terminates. Durations are nanoseconds.
#[derive(Debug, Clone, Copy, PartialEq, Eq, Structural)]
pub enum AnimationMode {
    /// Plays the frame list forward once with the default frame rate, then
    /// stops.
    Once,
    /// Like `Once`, but using an externally computed per-frame duration (in
    /// nanoseconds) instead of the default.
    ActionReady { frame_duration: u64 },
    /// Placeholder meaning "timing not yet known": inert until converted into
    /// `ActionReady` by [`Animation::setup_action_duration`].
    Action,
    /// Loops forever, wrapping to frame 0 after the last frame.
    Repeat,
    /// Loops forever, wrapping to the given frame index after the last frame.
    RepeatFrom(usize),
    /// Plays forward to the last frame, then backward to the first, forever.
    PingPong,
}

impl Default for AnimationMode {
    /// When unspecified, an animation repeats from its first frame.
    fn default() -> (res: Self)
        ensures
            res == AnimationMode::RepeatFrom(0usize),
    {
        AnimationMode::RepeatFrom(0)
    }
}

/// The error reported by [`Animation::populate_frames`] when the ending
/// offset leaves no usable frame.
#[derive(Debug, Clone, Copy, PartialEq, Eq, Structural)]
pub enum PopulateError {
    /// The ending offset is at least the total tile count, so the usable
    /// frame count would be zero or negative.
    EndingOffsetTooLarge,
}

/// An animation definition: an ordered frame list, a playback mode, and an
/// optional count of trailing sprite-sheet tiles that do not belong to the
/// animation.
#[derive(Debug, Clone, PartialEq, Eq)]
pub struct Animation {
    /// The ordered frame indices, in playback order; `None` until populated.
    pub frames: Option<Vec<usize>>,
    /// The playback policy.
    pub mode: AnimationMode,
    /// The offset from the end of the sprite sheet to the frame the animation
    /// should end on; `None` if the animation uses the whole sheet.
    pub ending_offset: Option<usize>,
}

impl Animation {
    /// A populated frame list is never empty: a zero-length list would make
    /// the update step's index resolution degenerate, so it is rejected
    /// wherever a frame list is built.
    pub open spec fn wf(self) -> bool {
        match self.frames {
            Some(f) => f@.len() > 0,
            None => true,
        }
    }

    /// The frame list as a sequence; the empty sequence when unpopulated.
    pub open spec fn frames_view(self) -> Seq<usize> {
        match self.frames {
            Some(f) => f@,
            None => Seq::<usize>::empty(),
        }
    }

    /// The frame list as an optional sequence.
    pub open spec fn spec_frames(self) -> Option<Seq<usize>> {
        match self.frames {
            Some(f) => Some(f@),
            None => None,
        }
    }

    /// The ending offset, defaulting to zero when absent.
    pub open spec fn spec_ending_offset(self) -> int {
        match self.ending_offset {
            Some(o) => o as int,
            None => 0,
        }
    }

    /// The frame count used by action-duration derivation: the length of the
    /// frame list, or one when the list is absent (so the derivation never
    /// divides by zero).
    pub open spec fn spec_frame_count_or_one(self) -> int {
        match self.frames {
            Some(f) => f@.len() as int,
            None => 1,
        }
    }

    /// Create a new animation from a non-empty list of frame indices. The
    /// mode defaults to `RepeatFrom(0)` and the ending offset is unset.
    #[must_use]
    pub fn from_frames(frames: Vec<usize>) -> (res: Self)
        requires
            frames@.len() > 0,
        ensures
            res.frames == Some(frames),
            res.mode == AnimationMode::RepeatFrom(0usize),
            res.ending_offset is None,
            res.wf(),
    {
        Self { frames: Some(frames), mode: AnimationMode::default(), ending_offset: None }
    }

    /// Runs the animation once and then stops playing.
    #[must_use]
    pub fn once(self) -> (res: Self)
        ensures
            res == (Animation { mode: AnimationMode::Once, ..self }),
    {
        Self { mode: AnimationMode::Once, ..self }
    }

    /// Repeats the animation forever.
    #[must_use]
    pub fn repeat(self) -> (res: Self)
        ensures
            res == (Animation { mode: AnimationMode::RepeatFrom(0usize), ..self }),
    {
        Self { mode: AnimationMode::RepeatFrom(0), ..self }
    }

    /// Repeats the animation forever, looping back to the given frame index
    /// at the end of the animation.
    #[must_use]
    pub fn repeat_from(self, frame_index: usize) -> (res: Self)
        ensures
            res == (Animation { mode: AnimationMode::RepeatFrom(frame_index), ..self }),
    {
        Self { mode: AnimationMode::RepeatFrom(frame_index), ..self }
    }

    /// Repeats the animation forever, going back and forth between the first
    /// and last frame.
    #[must_use]
    pub fn ping_pong(self) -> (res: Self)
        ensures
            res == (Animation { mode: AnimationMode::PingPong, ..self }),
    {
        Self { mode: AnimationMode::PingPong, ..self }
    }

    /// Whether the frame list is populated.
    pub fn has_frames(&self) -> (b: bool)
        ensures
            b == (self.frames is Some),
    {
        self.frames.is_some()
    }

    /// Appends frame indices to an existing frame list; a no-op when the
    /// list is absent.
    pub fn extend(&mut self, more: Vec<usize>)
        ensures
            final(self).mode == old(self).mode,
            final(self).ending_offset == old(self).ending_offset,
            old(self).frames is Some ==> final(self).frames is Some
                && final(self).frames_view() == old(self).frames_view() + more@,
            old(self).frames is None ==> final(self).frames is None,
            old(self).wf() ==> final(self).wf(),
    {
        if self.frames.is_some() {
            let mut f = self.frames.take().unwrap();
            let ghost orig = f@;
            let mut i: usize = 0;
            while i < more.len()
                invariant
                    i <= more@.len(),
                    f@ == orig + more@.take(i as int),
                decreases more@.len() - i,
            {
                f.push(more[i]);
                proof {
                    assert(f@ =~= orig + more@.take(i as int + 1));
                }
                i = i + 1;
            }
            proof {
                assert(f@ =~= orig + more@);
            }
            self.frames = Some(f);
        }
    }

    /// Fills the frame list with the ordered indices `0, 1, ..., n - 1`,
    /// where `n` is the supplied total tile count minus the ending offset
    /// (zero when absent). Reports an error, leaving the animation untouched,
    /// when that count would be zero or negative.
    pub fn populate_frames(&mut self, tile_count: usize) -> (res: Result<(), PopulateError>)
        ensures
            res is Ok <==> tile_count > old(self).spec_ending_offset(),
            res is Err ==> *final(self) == *old(self)
                && res == Err::<(), PopulateError>(PopulateError::EndingOffsetTooLarge),
            res is Ok ==> {
                &&& final(self).mode == old(self).mode
                &&& final(self).ending_offset == old(self).ending_offset
                &&& final(self).frames is Some
                &&& final(self).frames_view().len() == tile_count - old(self).spec_ending_offset()
                &&& forall|k: int|
                    0 <= k < final(self).frames_view().len()
                        ==> final(self).frames_view()[k] == k as usize
                &&& final(self).wf()
            },
    {
        let offset: usize = match self.ending_offset {
            Some(o) => o,
            None => 0,
        };
        if tile_count <= offset {
            return Err(PopulateError::EndingOffsetTooLarge);
        }
        let n: usize = tile_count - offset;
        let mut frames: Vec<usize> = Vec::new();
        let mut i: usize = 0;
        while i < n
            invariant
                i <= n,
                frames@.len() == i,
                forall|k: int| 0 <= k < i ==> frames@[k] == k as usize,
            decreases n - i,
        {
            frames.push(i);
            i = i + 1;
        }
        self.frames = Some(frames);
        Ok(())
    }

    /// Converts an animation in mode `Action` into `ActionReady`, deriving
    /// the per-frame duration by dividing the externally supplied total
    /// duration (nanoseconds) by the frame count (taken as one when the frame
    /// list is absent). Animations in any other mode are left untouched, and
    /// the conversion is one-shot: once `ActionReady`, the animation no
    /// longer reacts to the total duration.
    pub fn setup_action_duration(&mut self, total_duration: u64)
        requires
            old(self).wf(),
        ensures
            old(self).mode is Action ==> {
                &&& final(self).frames == old(self).frames
                &&& final(self).ending_offset == old(self).ending_offset
                &&& final(self).mode == (AnimationMode::ActionReady {
                    frame_duration: (total_duration as int
                        / old(self).spec_frame_count_or_one()) as u64,
                })
            },
            !(old(self).mode is Action) ==> *final(self) == *old(self),
    {
        match self.mode {
            AnimationMode::Action => {
                let count: u64 = match &self.frames {
                    Some(f) => f.len() as u64,
                    None => 1,
                };
                self.mode = AnimationMode::ActionReady { frame_duration: total_duration / count };
            },
            _ => {},
        }
    }
}

/// An action on a thing that is scoped to a specific total duration, given in
/// nanoseconds. Attached externally to a parent instance; its presence
/// triggers action-duration derivation on the animation it governs.
#[derive(Debug, Clone, Copy, PartialEq, Eq, Structural)]
pub struct ScopedAction {
    pub duration: u64,
}

/// The animation currently active on an instance.
#[derive(Debug, Clone, PartialEq, Eq)]
pub struct ActiveAnimation(pub Animation);

impl ActiveAnimation {
    pub fn new(animation: Animation) -> (res: Self)
        ensures
            res.0 == animation,
    {
        Self(animation)
    }
}

/// A texture-atlas description as it appears in a file: a name, the image
/// path, and the tile grid.
#[derive(Debug, Clone, PartialEq, Eq)]
pub struct TextureAtlasAsset {
    pub name: String,
    pub file_path: String,
    pub rows: u32,
    pub columns: u32,
    pub tile_size_x: u32,
    pub tile_size_y: u32,
}

impl TextureAtlasAsset {
    /// The total number of tiles in the grid: the tile count a grid layout
    /// built from this description reports, and the input to frame-list
    /// population.
    pub fn tile_count(&self) -> (n: u64)
        ensures
            n == self.rows as int * self.columns as int,
    {
        proof {
            assert(self.rows as int * self.columns as int <= u64::MAX as int) by (nonlinear_arith)
                requires
                    self.rows as int <= u32::MAX as int,
                    self.columns as int <= u32::MAX as int,
            ;
        }
        (self.rows as u64) * (self.columns as u64)
    }
}

/// An animation as it appears in a file: the definition plus the description
/// of the texture atlas it draws from.
#[derive(Debug, Clone, PartialEq, Eq)]
pub struct AnimationAsset {
    pub frames: Option<Vec<usize>>,
    pub mode: AnimationMode,
    pub ending_offset: Option<usize>,
    pub texture_atlas_asset: TextureAtlasAsset,
}

impl AnimationAsset {
    /// The animation definition this asset describes, atlas geometry aside.
    pub open spec fn spec_animation(self) -> Animation {
        Animation { frames: self.frames, mode: self.mode, ending_offset: self.ending_offset }
    }

    /// Extracts the animation definition. Loading the atlas image itself is
    /// the host's business; this keeps the definition fields.
    pub fn to_animation(self) -> (res: Animation)
        ensures
            res == self.spec_animation(),
    {
        Animation { frames: self.frames, mode: self.mode, ending_offset: self.ending_offset }
    }
}

/// A named set of animations as it appears in a file: the mandatory default
/// plus labelled animations for specific situations.
#[derive(Debug, Clone, PartialEq, Eq)]
pub struct AnimationsAsset {
    /// Default animation. Must exist.
    pub idle: AnimationAsset,
    /// Labelled animations; when a label is missing the idle one is used.
    pub animations: Vec<(String, AnimationAsset)>,
}

impl AnimationsAsset {
    /// Extracts the animation definitions, keeping every label.
    pub fn to_animations(self) -> (res: Animations)
        ensures
            res.idle == self.idle.spec_animation(),
            res.animations@.len() == self.animations@.len(),
            forall|i: int|
                0 <= i < self.animations@.len() ==> res.animations@[i] == (
                self.animations@[i].0,
                self.animations@[i].1.spec_animation(),
                ),
    {
        let AnimationsAsset { idle, mut animations } = self;
        let ghost orig = animations@;
        let mut out: Vec<(String, Animation)> = Vec::new();
        while animations.len() > 0
            invariant
                out@.len() + animations@.len() == orig.len(),
                animations@ == orig.skip(out@.len() as int),
                forall|i: int|
                    0 <= i < out@.len() ==> out@[i] == (orig[i].0, orig[i].1.spec_animation()),
            decreases animations@.len(),
        {
            let ghost done: int = out@.len() as int;
            let (label, asset) = animations.remove(0);
            out.push((label, asset.to_animation()));
            proof {
                assert(animations@ =~= orig.skip(done + 1));
            }
        }
        Animations { idle: idle.to_animation(), animations: out }
    }
}

/// A pure, immutable-after-construction registry of animations: the mandatory
/// default ("idle") plus labelled animations. Lookup by label falls back to
/// the default when the label is absent.
#[derive(Debug, Clone, PartialEq, Eq)]
pub struct Animations {
    /// Default animation. Must exist.
    pub idle: Animation,
    /// Labelled animations; when a label is missing the idle one is returned.
    pub animations: Vec<(String, Animation)>,
}

/// The first animation labelled `label` at or after position `i`, if any.
pub open spec fn lookup_from(
    pairs: Seq<(String, Animation)>,
    label: Seq<char>,
    i: int,
) -> Option<Animation>
    decreases pairs.len() - i,
{
    if i < 0 || i >= pairs.len() {
        None
    } else if pairs[i].0@ == label {
        Some(pairs[i].1)
    } else {
        lookup_from(pairs, label, i + 1)
    }
}

/// The first animation labelled `label`, if any.
pub open spec fn spec_lookup(pairs: Seq<(String, Animation)>, label: Seq<char>) -> Option<
    Animation,
> {
    lookup_from(pairs, label, 0)
}

impl Animations {
    /// Returns the idle animation.
    pub fn idle(&self) -> (res: &Animation)
        ensures
            *res == self.idle,
    {
        &self.idle
    }

    /// Returns the requested animation; falls back to the idle animation when
    /// no animation carries the label. The fallback is deliberate policy, not
    /// an error: callers never special-case an unknown label.
    pub fn animation(&self, label: &String) -> (res: &Animation)
        ensures
            *res == match spec_lookup(self.animations@, label@) {
                Some(a) => a,
                None => self.idle,
            },
    {
        let mut i: usize = 0;
        while i < self.animations.len()
            invariant
                i <= self.animations@.len(),
                lookup_from(self.animations@, label@, 0) == lookup_from(
                    self.animations@,
                    label@,
                    i as int,
                ),
            decreases self.animations@.len() - i,
        {
            if self.animations[i].0 == *label {
                return &self.animations[i].1;
            }
            i = i + 1;
        }
        &self.idle
    }
}

} // verus!
