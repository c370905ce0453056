use animator::ActiveAnimation;
use animator::Animation;
use animator::AnimationAsset;
use animator::AnimationMode;
use animator::AnimationState;
use animator::AnimationsAsset;
use animator::PopulateError;
use animator::ScopedAction;
use animator::TextureAtlasAsset;
use animator::FRAME_DURATION_NANOS;

fn atlas(rows: u32, columns: u32) -> TextureAtlasAsset {
    TextureAtlasAsset {
        name: "sheet".to_string(),
        file_path: "sheet.png".to_string(),
        rows,
        columns,
        tile_size_x: 16,
        tile_size_y: 16,
    }
}

#[test]
fn action_derivation_divides_total_duration_by_frame_count() {
    let mut anim = Animation::from_frames(vec![0, 1, 2, 3, 4]);
    anim.mode = AnimationMode::Action;
    let action = ScopedAction { duration: 500_000_000 };
    anim.setup_action_duration(action.duration);
    assert_eq!(anim.mode, AnimationMode::ActionReady { frame_duration: 100_000_000 });

    // Updates now advance exactly every 100ms, not every default duration.
    let mut state = AnimationState::new();
    state.update(&anim, 100_000_000, FRAME_DURATION_NANOS);
    assert_eq!(state.frame_index(), 1);
    state.update(&anim, 83_000_000, FRAME_DURATION_NANOS);
    assert_eq!(state.frame_index(), 1);
    state.update(&anim, 17_000_000, FRAME_DURATION_NANOS);
    assert_eq!(state.frame_index(), 2);
}

#[test]
fn action_derivation_without_frames_counts_one() {
    let mut anim = Animation { frames: None, mode: AnimationMode::Action, ending_offset: None };
    anim.setup_action_duration(400);
    assert_eq!(anim.mode, AnimationMode::ActionReady { frame_duration: 400 });
}

#[test]
fn action_derivation_leaves_other_modes_untouched() {
    let before = Animation::from_frames(vec![0, 1]).ping_pong();
    let mut anim = before.clone();
    anim.setup_action_duration(500);
    assert_eq!(anim, before);

    let ready = Animation::from_frames(vec![0, 1]);
    let mut anim = ready.clone();
    anim.mode = AnimationMode::ActionReady { frame_duration: 7 };
    // One-shot: once converted it no longer reacts to the trigger duration.
    anim.setup_action_duration(900);
    assert_eq!(anim.mode, AnimationMode::ActionReady { frame_duration: 7 });
}

#[test]
fn populate_frames_lists_tiles_minus_ending_offset() {
    let mut anim = Animation { frames: None, mode: AnimationMode::default(), ending_offset: None };
    assert_eq!(anim.populate_frames(4), Ok(()));
    assert_eq!(anim.frames, Some(vec![0, 1, 2, 3]));

    let mut trimmed =
        Animation { frames: None, mode: AnimationMode::default(), ending_offset: Some(1) };
    assert_eq!(trimmed.populate_frames(4), Ok(()));
    assert_eq!(trimmed.frames, Some(vec![0, 1, 2]));
}

#[test]
fn populate_frames_rejects_offset_leaving_no_frame() {
    let mut anim =
        Animation { frames: None, mode: AnimationMode::default(), ending_offset: Some(4) };
    assert_eq!(anim.populate_frames(4), Err(PopulateError::EndingOffsetTooLarge));
    assert_eq!(anim.frames, None);

    let mut worse =
        Animation { frames: Some(vec![9]), mode: AnimationMode::Once, ending_offset: Some(5) };
    let before = worse.clone();
    assert_eq!(worse.populate_frames(4), Err(PopulateError::EndingOffsetTooLarge));
    assert_eq!(worse, before);

    let mut empty = Animation { frames: None, mode: AnimationMode::default(), ending_offset: None };
    assert_eq!(empty.populate_frames(0), Err(PopulateError::EndingOffsetTooLarge));
}

#[test]
fn populate_then_derive_then_update() {
    // The three setup phases in their required order.
    let mut anim =
        Animation { frames: None, mode: AnimationMode::Action, ending_offset: Some(2) };
    assert_eq!(anim.populate_frames(6), Ok(()));
    anim.setup_action_duration(800);
    assert_eq!(anim.mode, AnimationMode::ActionReady { frame_duration: 200 });
    let mut state = AnimationState::new();
    state.update(&anim, 200, FRAME_DURATION_NANOS);
    assert_eq!(state.frame_index(), 1);
}

#[test]
fn builders_set_the_mode_and_keep_the_frames() {
    let base = Animation::from_frames(vec![3, 4, 5]);
    assert_eq!(base.mode, AnimationMode::RepeatFrom(0));
    assert_eq!(base.ending_offset, None);
    assert_eq!(AnimationMode::default(), AnimationMode::RepeatFrom(0));

    let once = base.clone().once();
    assert_eq!(once.mode, AnimationMode::Once);
    assert_eq!(once.frames, Some(vec![3, 4, 5]));

    let repeat = base.clone().repeat();
    assert_eq!(repeat.mode, AnimationMode::RepeatFrom(0));

    let from_two = base.clone().repeat_from(2);
    assert_eq!(from_two.mode, AnimationMode::RepeatFrom(2));

    let pp = base.clone().ping_pong();
    assert_eq!(pp.mode, AnimationMode::PingPong);

    assert!(base.has_frames());
    let bare = Animation { frames: None, mode: AnimationMode::default(), ending_offset: None };
    assert!(!bare.has_frames());
}

#[test]
fn extend_appends_when_populated_and_skips_when_not() {
    let mut anim = Animation::from_frames(vec![0, 1]);
    anim.extend(vec![2, 3]);
    assert_eq!(anim.frames, Some(vec![0, 1, 2, 3]));

    let mut bare = Animation { frames: None, mode: AnimationMode::Once, ending_offset: None };
    bare.extend(vec![2, 3]);
    assert_eq!(bare.frames, None);
}

#[test]
fn tile_count_is_rows_times_columns() {
    assert_eq!(atlas(3, 4).tile_count(), 12);
    assert_eq!(atlas(1, 1).tile_count(), 1);
    assert_eq!(atlas(0, 7).tile_count(), 0);
    assert_eq!(atlas(u32::MAX, u32::MAX).tile_count(), (u32::MAX as u64) * (u32::MAX as u64));
}

#[test]
fn assets_convert_to_definitions() {
    let asset = AnimationAsset {
        frames: Some(vec![0, 1]),
        mode: AnimationMode::Once,
        ending_offset: Some(1),
        texture_atlas_asset: atlas(2, 2),
    };
    let anim = asset.clone().to_animation();
    assert_eq!(anim.frames, Some(vec![0, 1]));
    assert_eq!(anim.mode, AnimationMode::Once);
    assert_eq!(anim.ending_offset, Some(1));

    let set = AnimationsAsset {
        idle: asset.clone(),
        animations: vec![("walk".to_string(), asset.clone())],
    };
    let animations = set.to_animations();
    assert_eq!(animations.idle, anim);
    assert_eq!(animations.animations.len(), 1);
    assert_eq!(animations.animations[0].0, "walk");
    assert_eq!(animations.animations[0].1, anim);
}

#[test]
fn active_animation_wraps_a_definition() {
    let anim = Animation::from_frames(vec![0]);
    let active = ActiveAnimation::new(anim.clone());
    assert_eq!(active.0, anim);
}
