use music_visualizer::app::{App, FramePlan, Key, VisUniforms, WindowAction};
use music_visualizer::constants::{
    DEFAULT_INTENSITY, DEFAULT_WINDOW_HEIGHT, DEFAULT_WINDOW_WIDTH, INTENSITY_STEP, MAX_INTENSITY,
    WINDOW_TITLE,
};
use music_visualizer::plugin::{EffectKind, EffectRegistry, Plugin};
use music_visualizer::scheduler::{ModeScheduler, ModeState};
use music_visualizer::settings::{AppSettings, ColorScheme};

fn gallery(names: &[&str]) -> EffectRegistry {
    EffectRegistry::new(names.iter().map(|n| Plugin::new(n)).collect()).unwrap()
}

fn running(names: &[&str]) -> App {
    let mut app = App::new();
    app.install(gallery(names));
    app
}

#[test]
fn engine_starts_without_gallery() {
    let app = App::new();
    assert!(app.registry().is_none());
    assert_eq!(app.scheduler(), ModeScheduler::new());
    assert_eq!(app.intensity(), 1000);
    assert_eq!(DEFAULT_INTENSITY, 1000);
    assert_eq!(app.resolution(), (DEFAULT_WINDOW_WIDTH, DEFAULT_WINDOW_HEIGHT));
    assert_eq!(app.resolution(), (800, 600));
    assert_eq!(app.time_micros(), 0);
    assert!(!app.is_transparent());
    assert!(!app.debug_info());
    assert_eq!(app.settings().gain(), 1500);
    assert!(app.enabled_flags().is_empty());
    assert_eq!(WINDOW_TITLE, "Music Visualizer");
}

#[test]
fn nothing_is_drawn_without_gallery() {
    let mut app = App::new();
    assert_eq!(app.update(16_667), None);
    assert_eq!(app.time_micros(), 0);
    assert_eq!(app.handle_key_press(Key::Space, false), WindowAction::Nothing);
    assert_eq!(app.scheduler(), ModeScheduler::new());
    assert!(!app.resize(1024, 768));
    assert_eq!(app.resolution(), (800, 600));
}

#[test]
fn frame_plan_carries_the_current_values() {
    let mut app = running(&["bars", "waveform"]);
    let plan = app.update(16_667).unwrap();
    assert_eq!(
        plan,
        FramePlan {
            uniforms: VisUniforms {
                color: [1000, 1000, 1000, 1000],
                intensity: 1000,
                resolution: [800, 600],
                mode: 0,
                time: 16_667,
                smoothing_factor: 100,
                gain: 1500,
            },
            kind: EffectKind::Spectrum,
            payload_len: 256,
            bass_bins: 6,
            bass_boost: 1000,
            workgroups: 16,
            particles: 1000,
            state: ModeState::Steady { index: 0 },
            progress_milli: 1000,
        }
    );
}

#[test]
fn frame_reads_what_was_set_just_before() {
    let mut app = running(&["bars", "waveform"]);
    let first = app.update(1000).unwrap();
    assert_eq!(first.uniforms.intensity, 1000);
    let mut settings = AppSettings::new();
    settings.set_gain(3200);
    settings.set_smoothing_factor(250);
    settings.set_color_scheme(ColorScheme::Neon);
    settings.set_bass_boost(1800);
    app.apply_settings(settings);
    app.set_intensity(4200);
    assert!(app.resize(1920, 1080));
    let plan = app.update(1000).unwrap();
    assert_eq!(plan.uniforms.intensity, 4200);
    assert_eq!(plan.uniforms.gain, 3200);
    assert_eq!(plan.uniforms.smoothing_factor, 250);
    assert_eq!(plan.uniforms.resolution, [1920, 1080]);
    assert_eq!(plan.uniforms.color, [0, 1000, 800, 1000]);
    assert_eq!(plan.bass_boost, 1800);
    assert_eq!(plan.uniforms.time, 2000);
    app.set_intensity(300);
    let next = app.update(1000).unwrap();
    assert_eq!(next.uniforms.intensity, 300);
    assert_eq!(next.uniforms.gain, 3200);
}

#[test]
fn space_and_p_switch_to_the_next_effect() {
    let mut app = running(&["bars", "waveform", "tunnel"]);
    assert_eq!(app.handle_key_press(Key::Space, false), WindowAction::Nothing);
    assert_eq!(
        app.scheduler().state,
        ModeState::Transitioning { from: 0, to: 1, elapsed: 0 }
    );
    let plan = app.update(100_000).unwrap();
    assert_eq!(plan.uniforms.mode, 1);
    assert_eq!(plan.kind, EffectKind::Waveform);
    assert_eq!(plan.payload_len, 512);
    assert_eq!(plan.state, ModeState::Transitioning { from: 0, to: 1, elapsed: 100_000 });
    assert_eq!(plan.progress_milli, 200);
    let done = app.update(400_000).unwrap();
    assert_eq!(done.state, ModeState::Steady { index: 1 });
    assert_eq!(done.progress_milli, 1000);
    assert_eq!(app.handle_key_press(Key::KeyP, true), WindowAction::Nothing);
    assert_eq!(app.scheduler().state.active(), 2);
    app.handle_key_press(Key::Space, false);
    assert_eq!(app.scheduler().state.active(), 0);
}

#[test]
fn switching_skips_disabled_effects() {
    let mut app = running(&["bars", "waveform", "tunnel"]);
    let mut settings = AppSettings::new();
    settings.disable_plugin("waveform");
    app.apply_settings(settings);
    assert_eq!(app.enabled_flags(), vec![true, false, true]);
    app.handle_key_press(Key::Space, false);
    assert_eq!(app.scheduler().state.active(), 2);
    let mut all_off = AppSettings::new();
    all_off.disable_plugin("bars");
    all_off.disable_plugin("waveform");
    all_off.disable_plugin("tunnel");
    app.apply_settings(all_off);
    let before = app.scheduler();
    app.handle_key_press(Key::Space, false);
    assert_eq!(app.scheduler(), before);
}

#[test]
fn engine_switches_by_itself_when_asked_to() {
    let mut app = running(&["bars", "waveform"]);
    let mut settings = AppSettings::new();
    settings.set_auto_switch_modes(true);
    settings.set_mode_switch_seconds(5);
    app.apply_settings(settings);
    let waiting = app.update(4_000_000).unwrap();
    assert_eq!(waiting.state, ModeState::Steady { index: 0 });
    let fired = app.update(1_000_000).unwrap();
    assert_eq!(fired.state, ModeState::Transitioning { from: 0, to: 1, elapsed: 0 });
    assert_eq!(fired.uniforms.mode, 1);
    assert_eq!(fired.progress_milli, 0);
    let done = app.update(500_000).unwrap();
    assert_eq!(done.state, ModeState::Steady { index: 1 });
    assert_eq!(done.uniforms.time, 5_500_000);
}

#[test]
fn arrows_change_the_intensity_in_steps() {
    let mut app = App::new();
    assert_eq!(app.handle_key_press(Key::ArrowUp, false), WindowAction::Nothing);
    assert_eq!(app.intensity(), 1100);
    assert_eq!(INTENSITY_STEP, 100);
    assert_eq!(app.handle_key_press(Key::ArrowDown, false), WindowAction::Nothing);
    app.handle_key_press(Key::ArrowDown, false);
    assert_eq!(app.intensity(), 900);
}

#[test]
fn intensity_is_held_between_zero_and_ten() {
    let mut app = App::new();
    for _ in 0..200 {
        app.handle_key_press(Key::ArrowUp, false);
    }
    assert_eq!(app.intensity(), 10_000);
    assert_eq!(MAX_INTENSITY, 10_000);
    app.handle_key_press(Key::ArrowDown, false);
    assert_eq!(app.intensity(), 9_900);
    for _ in 0..200 {
        app.handle_key_press(Key::ArrowDown, false);
    }
    assert_eq!(app.intensity(), 0);
    app.set_intensity(50);
    app.handle_key_press(Key::ArrowDown, false);
    assert_eq!(app.intensity(), 0);
    app.set_intensity(9_950);
    app.handle_key_press(Key::ArrowUp, false);
    assert_eq!(app.intensity(), 10_000);
    app.set_intensity(u32::MAX);
    assert_eq!(app.intensity(), 10_000);
}

#[test]
fn f_toggles_the_full_screen() {
    let mut app = App::new();
    assert_eq!(app.handle_key_press(Key::KeyF, false), WindowAction::EnterFullscreen);
    assert_eq!(app.handle_key_press(Key::KeyF, true), WindowAction::LeaveFullscreen);
}

#[test]
fn t_toggles_the_see_through_window() {
    let mut app = App::new();
    assert_eq!(app.handle_key_press(Key::KeyT, false), WindowAction::SetTransparent(true));
    assert!(app.is_transparent());
    assert_eq!(app.handle_key_press(Key::KeyT, false), WindowAction::SetTransparent(false));
    assert!(!app.is_transparent());
}

#[test]
fn escape_leaves_the_full_screen_or_the_program() {
    let mut app = App::new();
    assert_eq!(
        app.handle_key_press(Key::Escape, true),
        WindowAction::LeaveFullscreenAndMinimize
    );
    assert_eq!(app.handle_key_press(Key::Escape, false), WindowAction::Exit);
    assert_eq!(app.handle_key_press(Key::Other, false), WindowAction::Nothing);
    assert_eq!(app.intensity(), 1000);
}

#[test]
fn resize_takes_note_of_the_size() {
    let mut app = running(&["bars"]);
    assert!(app.resize(1280, 720));
    assert_eq!(app.resolution(), (1280, 720));
    assert!(!app.resize(0, 720));
    assert_eq!(app.resolution(), (0, 720));
    assert!(!app.resize(0, 0));
    assert!(app.resize(1, 1));
    assert_eq!(app.update(1).unwrap().uniforms.resolution, [1, 1]);
}

#[test]
fn installing_a_smaller_gallery_starts_anew() {
    let mut app = running(&["bars", "waveform", "tunnel"]);
    app.handle_key_press(Key::Space, false);
    app.handle_key_press(Key::Space, false);
    assert_eq!(app.scheduler().state.active(), 2);
    app.install(gallery(&["bars", "waveform", "tunnel", "plasma"]));
    assert_eq!(app.scheduler().state.active(), 2);
    assert_eq!(app.registry().unwrap().len(), 4);
    app.install(gallery(&["bars"]));
    assert_eq!(app.scheduler(), ModeScheduler::new());
    assert_eq!(app.update(1).unwrap().uniforms.mode, 0);
}

#[test]
fn time_adds_up_and_saturates() {
    let mut app = running(&["bars"]);
    app.update(10);
    app.update(20);
    assert_eq!(app.time_micros(), 30);
    app.update(u64::MAX);
    assert_eq!(app.time_micros(), u64::MAX);
    let plan = app.update(5).unwrap();
    assert_eq!(plan.uniforms.time, u64::MAX);
}

#[test]
fn debug_overlay_can_be_switched() {
    let mut app = App::new();
    app.set_debug_info(true);
    assert!(app.debug_info());
    app.set_debug_info(false);
    assert!(!app.debug_info());
}
