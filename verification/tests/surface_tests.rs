use conmind::surface::{
    choose_alpha_mode, frame_action, preferred_format_index, AlphaMode, FrameAction, FrameOutcome,
    PixelSize, SurfaceSizes,
};

fn px(width: u32, height: u32) -> PixelSize {
    PixelSize { width, height }
}

#[test]
fn resize_to_drawable_size_reconfigures() {
    let mut sizes = SurfaceSizes::new(px(800, 600));
    assert!(sizes.resize(px(1024, 768)));
    assert_eq!(sizes.window, px(1024, 768));
    assert_eq!(sizes.surface, px(1024, 768));
}

#[test]
fn minimised_window_keeps_the_surface() {
    let mut sizes = SurfaceSizes::new(px(800, 600));
    assert!(!sizes.resize(px(0, 0)));
    assert_eq!(sizes.window, px(0, 0));
    assert_eq!(sizes.surface, px(800, 600));
    assert!(!sizes.resize(px(0, 600)));
    assert!(!sizes.resize(px(800, 0)));
    assert_eq!(sizes.surface, px(800, 600));
}

#[test]
fn resizing_twice_to_one_size_is_resizing_once() {
    let mut once = SurfaceSizes::new(px(10, 10));
    once.resize(px(30, 20));
    let mut twice = once;
    twice.resize(px(30, 20));
    assert_eq!(once, twice);
}

#[test]
fn frame_actions() {
    assert_eq!(frame_action(FrameOutcome::Success, true), FrameAction::Draw { with_pipeline: true });
    assert_eq!(frame_action(FrameOutcome::Success, false), FrameAction::Draw { with_pipeline: false });
    assert_eq!(frame_action(FrameOutcome::Outdated, true), FrameAction::Reconfigure);
    assert_eq!(frame_action(FrameOutcome::Lost, false), FrameAction::Reconfigure);
    assert_eq!(frame_action(FrameOutcome::Timeout, true), FrameAction::ReportTimeout);
    assert_eq!(frame_action(FrameOutcome::Suboptimal, true), FrameAction::Skip);
    assert_eq!(frame_action(FrameOutcome::Occluded, true), FrameAction::Skip);
    assert_eq!(frame_action(FrameOutcome::Validation, true), FrameAction::Skip);
}

#[test]
fn first_srgb_format_is_preferred() {
    assert_eq!(preferred_format_index(&vec![false, true, true]), 1);
    assert_eq!(preferred_format_index(&vec![true]), 0);
}

#[test]
fn first_format_without_srgb() {
    assert_eq!(preferred_format_index(&vec![false, false]), 0);
}

#[test]
fn translucent_alpha_mode_is_preferred() {
    assert_eq!(
        choose_alpha_mode(&vec![AlphaMode::Opaque, AlphaMode::PreMultiplied, AlphaMode::PostMultiplied]),
        AlphaMode::PreMultiplied
    );
    assert_eq!(
        choose_alpha_mode(&vec![AlphaMode::Auto, AlphaMode::PostMultiplied]),
        AlphaMode::PostMultiplied
    );
}

#[test]
fn first_alpha_mode_otherwise() {
    assert_eq!(choose_alpha_mode(&vec![AlphaMode::Opaque, AlphaMode::Inherit]), AlphaMode::Opaque);
}
