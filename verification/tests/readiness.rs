use bevy::asset::RenderAssetUsages;
use bevy::image::Image;
use bevy::render::render_resource::{Extent3d, TextureDimension, TextureFormat};
use pattern_mixer::readiness::{
    reinterpret_pattern, stackable, ImageDimension, ImageShape, LoadState, PatternState,
    PollAction, PATTERN_LAYERS, PATTERN_TEXTURE_PATH,
};

#[test]
fn new_state_is_unloaded_and_keeps_what_it_was_given() {
    let state = PatternState::new(7u32, 9u32, 4);
    assert!(!state.is_loaded());
    assert_eq!(*state.pattern(), 7);
    assert_eq!(*state.mixed(), 9);
    assert_eq!(state.layers(), 4);
}

#[test]
fn poll_waits_while_the_pattern_is_not_loaded() {
    for load in [LoadState::NotLoaded, LoadState::Loading, LoadState::Failed] {
        let mut state = PatternState::new(1u32, 2u32, 4);
        assert_eq!(state.poll(load), PollAction::Wait);
        assert!(!state.is_loaded());
    }
}

#[test]
fn flag_is_set_when_the_pattern_is_loaded() {
    let mut state = PatternState::new(1u32, 2u32, 4);
    assert_eq!(state.poll(LoadState::Loaded), PollAction::Reinterpret { layers: 4 });
    assert!(state.is_loaded());
}

#[test]
fn reinterpretation_uses_the_layer_count_of_the_state() {
    let mut state = PatternState::new("a", "b", 16);
    assert_eq!(state.poll(LoadState::Loaded), PollAction::Reinterpret { layers: 16 });
}

#[test]
fn loaded_state_never_fires_again_and_stays_loaded() {
    let mut state = PatternState::new(1u32, 2u32, 4);
    assert_eq!(state.poll(LoadState::Loaded), PollAction::Reinterpret { layers: 4 });
    for load in [
        LoadState::Loaded,
        LoadState::NotLoaded,
        LoadState::Loading,
        LoadState::Failed,
        LoadState::Loaded,
    ] {
        assert_eq!(state.poll(load), PollAction::Wait);
        assert!(state.is_loaded());
    }
}

#[test]
fn poll_fires_exactly_once_over_a_run_of_frames() {
    let frames = [
        LoadState::NotLoaded,
        LoadState::Loading,
        LoadState::Loading,
        LoadState::Loaded,
        LoadState::Loaded,
        LoadState::Failed,
        LoadState::Loaded,
    ];
    let mut state = PatternState::new(1u32, 2u32, 4);
    let mut fired = Vec::new();
    for (frame, load) in frames.iter().enumerate() {
        if state.poll(*load) != PollAction::Wait {
            fired.push(frame);
        }
    }
    assert_eq!(fired, vec![3]);
    assert!(state.is_loaded());
}

#[test]
fn flag_stays_unset_when_the_load_never_completes() {
    let mut state = PatternState::new(1u32, 2u32, 4);
    for _ in 0..100 {
        assert_eq!(state.poll(LoadState::Loading), PollAction::Wait);
    }
    assert_eq!(state.poll(LoadState::Failed), PollAction::Wait);
    assert!(!state.is_loaded());
}

#[test]
fn polling_never_changes_the_handles_or_the_layer_count() {
    let mut state = PatternState::new(String::from("pattern"), String::from("mixed"), 3);
    for load in [LoadState::Loading, LoadState::Loaded, LoadState::Failed, LoadState::Loaded] {
        state.poll(load);
        assert_eq!(state.pattern(), "pattern");
        assert_eq!(state.mixed(), "mixed");
        assert_eq!(state.layers(), 3);
    }
}

fn image(width: u32, height: u32, depth_or_array_layers: u32, dimension: TextureDimension) -> Image {
    Image::new_fill(
        Extent3d { width, height, depth_or_array_layers },
        dimension,
        &[0, 0, 0, 255],
        TextureFormat::Rgba8UnormSrgb,
        RenderAssetUsages::default(),
    )
}

fn shape(width: u32, height: u32, depth_or_layers: u32, dimension: ImageDimension) -> ImageShape {
    ImageShape { width, height, depth_or_layers, dimension }
}

#[test]
fn pattern_path_and_layer_count_are_fixed() {
    assert_eq!(PATTERN_TEXTURE_PATH, "textures/pattern_0.png");
    assert_eq!(PATTERN_LAYERS, 4);
}

#[test]
fn stacked_image_is_stackable_by_a_divisor_of_its_height() {
    assert!(stackable(shape(512, 2048, 1, ImageDimension::D2), 4));
    assert!(stackable(shape(512, 2048, 1, ImageDimension::D2), 1));
    assert!(stackable(shape(512, 2048, 1, ImageDimension::D2), 2048));
    assert!(stackable(shape(0, 0, 1, ImageDimension::D2), 3));
    assert!(stackable(shape(65535, 65537, 1, ImageDimension::D2), 1));
}

#[test]
fn image_is_not_stackable_by_zero_or_a_non_divisor() {
    assert!(!stackable(shape(512, 2048, 1, ImageDimension::D2), 0));
    assert!(!stackable(shape(512, 2048, 1, ImageDimension::D2), 3));
    assert!(!stackable(shape(512, 2048, 1, ImageDimension::D2), 4096));
}

#[test]
fn only_a_single_plane_is_stackable() {
    assert!(!stackable(shape(512, 2048, 1, ImageDimension::D1), 4));
    assert!(!stackable(shape(512, 2048, 1, ImageDimension::D3), 4));
    assert!(!stackable(shape(512, 2048, 2, ImageDimension::D2), 4));
    assert!(!stackable(shape(512, 2048, 0, ImageDimension::D2), 4));
}

#[test]
fn image_with_too_many_texels_is_not_stackable() {
    assert!(!stackable(shape(65536, 65536, 1, ImageDimension::D2), 4));
    assert!(!stackable(shape(u32::MAX, u32::MAX, 1, ImageDimension::D2), 1));
}

#[test]
fn reinterpretation_splits_the_height_into_layers() {
    let mut pattern = image(4, 12, 1, TextureDimension::D2);
    let texels = pattern.data.clone();
    assert!(reinterpret_pattern(&mut pattern, 3));
    assert_eq!(pattern.texture_descriptor.size, Extent3d { width: 4, height: 4, depth_or_array_layers: 3 });
    assert_eq!(pattern.texture_descriptor.dimension, TextureDimension::D2);
    assert_eq!(pattern.data, texels);
}

#[test]
fn reinterpretation_leaves_an_unfit_image_alone() {
    let mut uneven = image(4, 10, 1, TextureDimension::D2);
    assert!(!reinterpret_pattern(&mut uneven, 3));
    assert_eq!(uneven.texture_descriptor.size, Extent3d { width: 4, height: 10, depth_or_array_layers: 1 });

    let mut layered = image(4, 6, 2, TextureDimension::D2);
    assert!(!reinterpret_pattern(&mut layered, 3));
    assert_eq!(layered.texture_descriptor.size, Extent3d { width: 4, height: 6, depth_or_array_layers: 2 });

    let mut volume = image(4, 6, 1, TextureDimension::D3);
    assert!(!reinterpret_pattern(&mut volume, 3));
    assert_eq!(volume.texture_descriptor.size, Extent3d { width: 4, height: 6, depth_or_array_layers: 1 });

    let mut plane = image(4, 6, 1, TextureDimension::D2);
    assert!(!reinterpret_pattern(&mut plane, 0));
    assert_eq!(plane.texture_descriptor.size, Extent3d { width: 4, height: 6, depth_or_array_layers: 1 });
}

#[test]
fn poll_and_reinterpretation_work_together() {
    let mut state = PatternState::new(1u32, 2u32, 4);
    let mut pattern = image(8, 32, 1, TextureDimension::D2);
    let mut reinterpreted = 0;
    for load in [LoadState::Loading, LoadState::Loaded, LoadState::Loaded] {
        if let PollAction::Reinterpret { layers } = state.poll(load) {
            assert!(reinterpret_pattern(&mut pattern, layers));
            reinterpreted += 1;
        }
    }
    assert_eq!(reinterpreted, 1);
    assert_eq!(pattern.texture_descriptor.size, Extent3d { width: 8, height: 8, depth_or_array_layers: 4 });
}
