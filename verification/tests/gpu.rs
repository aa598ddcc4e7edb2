use music_visualizer::gpu::{choose_surface_format, FrameAction, SurfaceSize, SurfaceStatus};

#[test]
fn lost_or_outdated_surface_is_configured_anew() {
    assert_eq!(SurfaceStatus::Lost.action(), FrameAction::Reconfigure);
    assert_eq!(SurfaceStatus::Outdated.action(), FrameAction::Reconfigure);
}

#[test]
fn out_of_memory_ends_the_loop() {
    assert_eq!(SurfaceStatus::OutOfMemory.action(), FrameAction::Shutdown);
}

#[test]
fn presented_or_timed_out_frame_goes_on() {
    assert_eq!(SurfaceStatus::Presented.action(), FrameAction::Continue);
    assert_eq!(SurfaceStatus::Timeout.action(), FrameAction::Continue);
}

#[test]
fn first_srgb_format_is_chosen() {
    assert_eq!(choose_surface_format(&vec![false, true, true]), Some(1));
    assert_eq!(choose_surface_format(&vec![true]), Some(0));
    assert_eq!(choose_surface_format(&vec![false, false, false, true]), Some(3));
}

#[test]
fn first_format_is_chosen_without_srgb() {
    assert_eq!(choose_surface_format(&vec![false, false]), Some(0));
    assert_eq!(choose_surface_format(&vec![false]), Some(0));
}

#[test]
fn surface_without_formats_has_none_to_choose() {
    assert_eq!(choose_surface_format(&Vec::new()), None);
}

#[test]
fn empty_size_is_not_configured() {
    let mut size = SurfaceSize { width: 800, height: 600 };
    assert!(size.resize(1024, 768));
    assert_eq!(size, SurfaceSize { width: 1024, height: 768 });
    assert!(!size.resize(0, 768));
    assert_eq!(size, SurfaceSize { width: 1024, height: 768 });
    assert!(!size.resize(1024, 0));
    assert!(!size.resize(0, 0));
    assert_eq!(size, SurfaceSize { width: 1024, height: 768 });
    assert!(size.resize(1, 1));
    assert_eq!(size, SurfaceSize { width: 1, height: 1 });
}
