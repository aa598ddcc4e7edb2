use crate::constants::{
    BASS_BIN_COUNT, COMPUTE_WORKGROUP_SIZE, DEFAULT_INTENSITY, DEFAULT_WINDOW_HEIGHT,
    DEFAULT_WINDOW_WIDTH, INTENSITY_STEP, MAX_INTENSITY, NUM_PARTICLES, SAMPLE_SIZE,
};
use crate::particles::{spec_workgroups, ParticlePool};
use crate::plugin::{EffectKind, EffectRegistry, PluginView};
use crate::scheduler::{saturating_sum, ModeScheduler, ModeState};
use crate::settings::{AppSettings, ColorScheme, SettingsView};
use crate::spectrum::SpectrumAnalyzer;
use vstd::prelude::*;

verus! {

/// A key the engine reacts to.
#[derive(Clone, Copy, Debug, PartialEq, Eq, Structural)]
pub enum Key {
    Space,
    KeyP,
    KeyF,
    KeyT,
    ArrowUp,
    ArrowDown,
    Escape,
    /// Any other key.
    Other,
}

/// What the host is to do with its window after a key press.
#[derive(Clone, Copy, Debug, PartialEq, Eq, Structural)]
pub enum WindowAction {
    /// Nothing.
    Nothing,
    /// Fill the screen without a border and hide the cursor.
    EnterFullscreen,
    /// Return to the window and show the cursor.
    LeaveFullscreen,
    /// Return to the window, show the cursor and minimize the window.
    LeaveFullscreenAndMinimize,
    /// Make the window see-through, or opaque again.
    SetTransparent(bool),
    /// End the program.
    Exit,
}

/// The parameters of one frame as both GPU stages read them. Fractions are
/// in thousandths, the time in microseconds.
#[derive(Clone, Copy, Debug, PartialEq, Eq)]
pub struct VisUniforms {
    /// Base color as red, green, blue and alpha.
    pub color: [u32; 4],
    pub intensity: u32,
    /// Width and height of the viewport in pixels.
    pub resolution: [u32; 2],
    /// Index of the active effect.
    pub mode: u32,
    /// Time since the first frame.
    pub time: u64,
    pub smoothing_factor: u32,
    pub gain: u32,
}

/// The content of [`VisUniforms`].
pub struct UniformsView {
    pub color: Seq<u32>,
    pub intensity: u32,
    pub resolution: Seq<u32>,
    pub mode: u32,
    pub time: u64,
    pub smoothing_factor: u32,
    pub gain: u32,
}

impl View for VisUniforms {
    type V = UniformsView;

    open spec fn view(&self) -> UniformsView {
        UniformsView {
            color: self.color@,
            intensity: self.intensity,
            resolution: self.resolution@,
            mode: self.mode,
            time: self.time,
            smoothing_factor: self.smoothing_factor,
            gain: self.gain,
        }
    }
}

/// What one frame is to do: the parameters to write, the analysis to run,
/// the size of the compute dispatch and the state of the handoff.
#[derive(Clone, Copy, Debug, PartialEq, Eq)]
pub struct FramePlan {
    pub uniforms: VisUniforms,
    /// The analysis that the active effect is fed with.
    pub kind: EffectKind,
    /// Number of values of the analyzed signal that go to the GPU.
    pub payload_len: usize,
    /// Number of lowest bins whose mean is the bass energy.
    pub bass_bins: usize,
    /// Factor on the bass energy, in thousandths.
    pub bass_boost: u32,
    /// Number of workgroups of the particle compute dispatch.
    pub workgroups: u32,
    /// Number of particles to draw.
    pub particles: u32,
    /// The active effect and the handoff to it.
    pub state: ModeState,
    /// How far the handoff has come, in thousandths.
    pub progress_milli: u32,
}

/// The content of a [`FramePlan`].
pub struct FramePlanView {
    pub uniforms: UniformsView,
    pub kind: EffectKind,
    pub payload_len: usize,
    pub bass_bins: usize,
    pub bass_boost: u32,
    pub workgroups: u32,
    pub particles: u32,
    pub state: ModeState,
    pub progress_milli: u32,
}

impl View for FramePlan {
    type V = FramePlanView;

    open spec fn view(&self) -> FramePlanView {
        FramePlanView {
            uniforms: self.uniforms@,
            kind: self.kind,
            payload_len: self.payload_len,
            bass_bins: self.bass_bins,
            bass_boost: self.bass_boost,
            workgroups: self.workgroups,
            particles: self.particles,
            state: self.state,
            progress_milli: self.progress_milli,
        }
    }
}

/// The content of an [`App`].
pub struct AppView {
    /// The effects of the gallery; none until the gallery is installed.
    pub plugins: Seq<PluginView>,
    pub settings: SettingsView,
    pub scheduler: ModeScheduler,
    /// Intensity in thousandths.
    pub intensity: u32,
    /// Width of the viewport in pixels.
    pub width: u32,
    /// Height of the viewport in pixels.
    pub height: u32,
    /// Time since the first frame, in microseconds.
    pub time_micros: u64,
    pub transparent: bool,
    pub debug_info: bool,
}

/// The intensity one step up, held at the highest intensity.
pub open spec fn spec_raised(intensity: u32) -> u32 {
    if intensity + INTENSITY_STEP >= MAX_INTENSITY {
        MAX_INTENSITY
    } else {
        (intensity + INTENSITY_STEP) as u32
    }
}

/// The intensity one step down, held at zero.
pub open spec fn spec_lowered(intensity: u32) -> u32 {
    if intensity <= INTENSITY_STEP {
        0
    } else {
        (intensity - INTENSITY_STEP) as u32
    }
}

impl AppView {
    /// Whether the gallery is installed, so that frames can be drawn.
    pub open spec fn installed(self) -> bool {
        self.plugins.len() > 0
    }

    /// For each effect, whether the settings leave it enabled.
    pub open spec fn enabled(self) -> Seq<bool> {
        Seq::new(
            self.plugins.len(),
            |i: int| !self.settings.disabled_plugins.contains(self.plugins[i].name),
        )
    }

    /// What holds of every engine: values are inside their ranges, the
    /// gallery can be numbered, and the scheduler names effects of the
    /// gallery only.
    pub open spec fn wf(self) -> bool {
        &&& self.intensity <= MAX_INTENSITY
        &&& self.settings.in_range()
        &&& self.plugins.len() <= u32::MAX
        &&& self.scheduler.state.wf()
        &&& self.installed() ==> self.scheduler.state.in_bounds(self.plugins.len())
    }

    /// The engine after a frame that took `dt` microseconds: the scheduler
    /// has ticked and the time has moved on. Without a gallery there are no
    /// frames.
    pub open spec fn after_frame(self, dt: u64) -> AppView {
        if self.installed() {
            AppView {
                scheduler: self.scheduler.spec_tick(
                    dt,
                    self.settings.auto_switch(),
                    self.enabled(),
                ),
                time_micros: saturating_sum(self.time_micros, dt),
                ..self
            }
        } else {
            self
        }
    }

    /// The parameters that a frame drawn in this state writes.
    pub open spec fn uniforms(self) -> UniformsView {
        UniformsView {
            color: self.settings.color_scheme.spec_color(),
            intensity: self.intensity,
            resolution: seq![self.width, self.height],
            mode: self.scheduler.state.active() as u32,
            time: self.time_micros,
            smoothing_factor: self.settings.smoothing_factor,
            gain: self.settings.gain,
        }
    }

    /// The analysis that the active effect is fed with.
    pub open spec fn active_kind(self) -> EffectKind {
        self.plugins[self.scheduler.state.active() as int].kind()
    }

    /// What a frame drawn in this state is to do.
    pub open spec fn frame_plan(self) -> FramePlanView {
        FramePlanView {
            uniforms: self.uniforms(),
            kind: self.active_kind(),
            payload_len: match self.active_kind() {
                EffectKind::Spectrum => (SAMPLE_SIZE / 2) as usize,
                EffectKind::Waveform => SAMPLE_SIZE,
            },
            bass_bins: BASS_BIN_COUNT,
            bass_boost: self.settings.bass_boost,
            workgroups: spec_workgroups(
                NUM_PARTICLES as nat,
                COMPUTE_WORKGROUP_SIZE as nat,
            ) as u32,
            particles: NUM_PARTICLES,
            state: self.scheduler.state,
            progress_milli: self.scheduler.state.spec_progress_milli() as u32,
        }
    }

    /// The engine after a key press.
    pub open spec fn after_key(self, key: Key) -> AppView {
        match key {
            Key::Space | Key::KeyP => if self.installed() {
                AppView { scheduler: self.scheduler.spec_request_next(self.enabled()), ..self }
            } else {
                self
            },
            Key::KeyT => AppView { transparent: !self.transparent, ..self },
            Key::ArrowUp => AppView { intensity: spec_raised(self.intensity), ..self },
            Key::ArrowDown => AppView { intensity: spec_lowered(self.intensity), ..self },
            _ => self,
        }
    }

    /// What the host is to do with its window after a key press, given
    /// whether the window fills the screen.
    pub open spec fn key_action(self, key: Key, fullscreen: bool) -> WindowAction {
        match key {
            Key::KeyF => if fullscreen {
                WindowAction::LeaveFullscreen
            } else {
                WindowAction::EnterFullscreen
            },
            Key::KeyT => WindowAction::SetTransparent(!self.transparent),
            Key::Escape => if fullscreen {
                WindowAction::LeaveFullscreenAndMinimize
            } else {
                WindowAction::Exit
            },
            _ => WindowAction::Nothing,
        }
    }

    /// The engine after the window has taken the size `width` by `height`.
    pub open spec fn after_resize(self, width: u32, height: u32) -> AppView {
        if self.installed() {
            AppView { width, height, ..self }
        } else {
            self
        }
    }

    /// The engine after the gallery `plugins` has been installed: the
    /// scheduler goes on where it names effects of the new gallery only, and
    /// starts anew otherwise.
    pub open spec fn after_install(self, plugins: Seq<PluginView>) -> AppView {
        AppView {
            plugins,
            scheduler: if self.scheduler.state.in_bounds(plugins.len()) {
                self.scheduler
            } else {
                ModeScheduler { state: ModeState::Steady { index: 0 }, auto_timer: 0 }
            },
            ..self
        }
    }
}

/// The engine's state between frames: the gallery, the settings, the
/// scheduler and the values that go into each frame's parameters.
#[derive(Debug)]
pub struct App {
    registry: Option<EffectRegistry>,
    settings: AppSettings,
    scheduler: ModeScheduler,
    intensity: u32,
    width: u32,
    height: u32,
    time_micros: u64,
    transparent: bool,
    debug_info: bool,
}

impl View for App {
    type V = AppView;

    closed spec fn view(&self) -> AppView {
        AppView {
            plugins: match self.registry {
                Some(registry) => registry@,
                None => Seq::empty(),
            },
            settings: self.settings@,
            scheduler: self.scheduler,
            intensity: self.intensity,
            width: self.width,
            height: self.height,
            time_micros: self.time_micros,
            transparent: self.transparent,
            debug_info: self.debug_info,
        }
    }
}

impl App {
    #[verifier::type_invariant]
    spec fn inv(self) -> bool {
        &&& self.intensity <= MAX_INTENSITY
        &&& self.scheduler.state.wf()
        &&& self.registry matches Some(registry) ==> self.scheduler.state.in_bounds(
            registry@.len(),
        )
    }

    /// The engine at startup: no gallery yet, the first effect, default
    /// settings and intensity, the default window's size.
    pub fn new() -> (app: App)
        ensures
            app@.plugins.len() == 0,
            app@.settings == SettingsView::initial(),
            app@.scheduler == (ModeScheduler {
                state: ModeState::Steady { index: 0 },
                auto_timer: 0,
            }),
            app@.intensity == DEFAULT_INTENSITY,
            app@.width == DEFAULT_WINDOW_WIDTH,
            app@.height == DEFAULT_WINDOW_HEIGHT,
            app@.time_micros == 0,
            !app@.transparent,
            !app@.debug_info,
            app@.wf(),
    {
        let settings = AppSettings::new();
        let _ = settings.auto_switch();
        App {
            registry: None,
            settings,
            scheduler: ModeScheduler::new(),
            intensity: DEFAULT_INTENSITY,
            width: DEFAULT_WINDOW_WIDTH,
            height: DEFAULT_WINDOW_HEIGHT,
            time_micros: 0,
            transparent: false,
            debug_info: false,
        }
    }

    /// Installs the gallery, once the effects have been loaded.
    pub fn install(&mut self, registry: EffectRegistry)
        ensures
            final(self)@ == old(self)@.after_install(registry@),
            final(self)@.installed(),
            final(self)@.wf(),
    {
        proof {
            use_type_invariant(&*self);
        }
        let count: usize = registry.len();
        let _ = self.settings.auto_switch();
        let fits: bool = match self.scheduler.state {
            ModeState::Steady { index } => index < count,
            ModeState::Transitioning { from, to, .. } => from < count && to < count,
        };
        if !fits {
            self.scheduler = ModeScheduler::new();
        }
        self.registry = Some(registry);
    }

    /// States what holds of every engine. The settings and the gallery are
    /// asked for a value each because of what they state about themselves.
    fn well_formed(&self)
        ensures
            self@.wf(),
    {
        proof {
            use_type_invariant(self);
        }
        let _ = self.settings.auto_switch();
        match &self.registry {
            Some(registry) => {
                let _ = registry.len();
            },
            None => {},
        }
    }

    /// The settings in force.
    pub fn settings(&self) -> (settings: &AppSettings)
        ensures
            settings@ == self@.settings,
    {
        &self.settings
    }

    /// Puts new settings in force; they show from the next frame on.
    pub fn apply_settings(&mut self, settings: AppSettings)
        ensures
            final(self)@ == (AppView { settings: settings@, ..old(self)@ }),
            final(self)@.wf(),
    {
        proof {
            use_type_invariant(&*self);
        }
        self.settings = settings;
        self.well_formed();
    }

    /// The gallery, once it is installed.
    pub fn registry(&self) -> (registry: Option<&EffectRegistry>)
        ensures
            registry is Some <==> self@.installed(),
            registry matches Some(r) ==> r@ == self@.plugins,
    {
        match &self.registry {
            Some(registry) => {
                let _ = registry.len();
                Some(registry)
            },
            None => None,
        }
    }

    pub fn scheduler(&self) -> (scheduler: ModeScheduler)
        ensures
            scheduler == self@.scheduler,
            scheduler.state.wf(),
            self@.installed() ==> scheduler.state.in_bounds(self@.plugins.len()),
    {
        proof {
            use_type_invariant(self);
        }
        self.scheduler
    }

    pub fn intensity(&self) -> (intensity: u32)
        ensures
            intensity == self@.intensity,
            intensity <= MAX_INTENSITY,
    {
        proof {
            use_type_invariant(self);
        }
        self.intensity
    }

    /// Sets the intensity, in thousandths, held at the highest intensity.
    pub fn set_intensity(&mut self, intensity: u32)
        ensures
            final(self)@ == (AppView {
                intensity: if intensity > MAX_INTENSITY {
                    MAX_INTENSITY
                } else {
                    intensity
                },
                ..old(self)@
            }),
            final(self)@.wf(),
    {
        proof {
            use_type_invariant(&*self);
        }
        self.intensity = if intensity > MAX_INTENSITY {
            MAX_INTENSITY
        } else {
            intensity
        };
        self.well_formed();
    }

    pub fn resolution(&self) -> (size: (u32, u32))
        ensures
            size.0 == self@.width,
            size.1 == self@.height,
    {
        (self.width, self.height)
    }

    pub fn time_micros(&self) -> (time: u64)
        ensures
            time == self@.time_micros,
    {
        self.time_micros
    }

    pub fn is_transparent(&self) -> (transparent: bool)
        ensures
            transparent == self@.transparent,
    {
        self.transparent
    }

    pub fn debug_info(&self) -> (debug_info: bool)
        ensures
            debug_info == self@.debug_info,
    {
        self.debug_info
    }

    pub fn set_debug_info(&mut self, debug_info: bool)
        ensures
            final(self)@ == (AppView { debug_info, ..old(self)@ }),
            final(self)@.wf(),
    {
        proof {
            use_type_invariant(&*self);
        }
        self.debug_info = debug_info;
        self.well_formed();
    }

    /// For each effect of the gallery, whether the settings leave it
    /// enabled; empty without a gallery.
    pub fn enabled_flags(&self) -> (flags: Vec<bool>)
        ensures
            flags@ == self@.enabled(),
    {
        match &self.registry {
            Some(registry) => {
                let flags = registry.enabled_flags(&self.settings);
                assert(flags@ =~= self@.enabled());
                flags
            },
            None => {
                let flags: Vec<bool> = Vec::new();
                assert(flags@ =~= self@.enabled());
                flags
            },
        }
    }

    /// Reacts to a key press: space or P asks for the next effect, the arrow
    /// keys raise and lower the intensity by one step, T toggles the
    /// see-through window, F toggles filling the screen, and escape leaves
    /// the full screen or else ends the program. `fullscreen` says whether
    /// the window fills the screen now. Returns what the host is to do with
    /// its window.
    pub fn handle_key_press(&mut self, key: Key, fullscreen: bool) -> (action: WindowAction)
        ensures
            final(self)@ == old(self)@.after_key(key),
            action == old(self)@.key_action(key, fullscreen),
            final(self)@.installed() == old(self)@.installed(),
            final(self)@.wf(),
    {
        proof {
            use_type_invariant(&*self);
        }
        let action: WindowAction = match key {
            Key::Space | Key::KeyP => {
                if self.registry.is_some() {
                    let flags: Vec<bool> = self.enabled_flags();
                    let mut scheduler: ModeScheduler = self.scheduler;
                    let _ = scheduler.request_next(&flags);
                    self.scheduler = scheduler;
                }
                WindowAction::Nothing
            },
            Key::KeyF => {
                if fullscreen {
                    WindowAction::LeaveFullscreen
                } else {
                    WindowAction::EnterFullscreen
                }
            },
            Key::KeyT => {
                self.transparent = !self.transparent;
                WindowAction::SetTransparent(self.transparent)
            },
            Key::ArrowUp => {
                self.intensity = if self.intensity >= MAX_INTENSITY - INTENSITY_STEP {
                    MAX_INTENSITY
                } else {
                    self.intensity + INTENSITY_STEP
                };
                WindowAction::Nothing
            },
            Key::ArrowDown => {
                self.intensity = if self.intensity <= INTENSITY_STEP {
                    0
                } else {
                    self.intensity - INTENSITY_STEP
                };
                WindowAction::Nothing
            },
            Key::Escape => {
                if fullscreen {
                    WindowAction::LeaveFullscreenAndMinimize
                } else {
                    WindowAction::Exit
                }
            },
            Key::Other => WindowAction::Nothing,
        };
        self.well_formed();
        action
    }

    /// Takes note of the window's new size. Returns whether the surface is
    /// to be configured anew: not without a gallery, and not for an empty
    /// size.
    pub fn resize(&mut self, width: u32, height: u32) -> (reconfigure: bool)
        ensures
            final(self)@ == old(self)@.after_resize(width, height),
            reconfigure == (old(self)@.installed() && width > 0 && height > 0),
            final(self)@.wf(),
    {
        proof {
            use_type_invariant(&*self);
        }
        self.well_formed();
        if self.registry.is_some() {
            self.width = width;
            self.height = height;
            width > 0 && height > 0
        } else {
            false
        }
    }

    /// Advances the engine by one frame that comes `dt` microseconds after
    /// the one before, and says what the frame is to do. The parameters of
    /// the plan are those of the engine as it is now: whatever was set
    /// before this call shows in this frame. Without a gallery nothing
    /// happens and there is nothing to do.
    pub fn update(&mut self, dt: u64) -> (plan: Option<FramePlan>)
        ensures
            final(self)@ == old(self)@.after_frame(dt),
            plan is Some <==> old(self)@.installed(),
            final(self)@.wf(),
            plan matches Some(p) ==> p@ == final(self)@.frame_plan(),
            plan matches Some(p) ==> p.uniforms.mode < final(self)@.plugins.len() && p.payload_len
                <= SAMPLE_SIZE && p.workgroups * COMPUTE_WORKGROUP_SIZE >= p.particles
                && p.state.in_bounds(final(self)@.plugins.len()) && p.progress_milli <= 1000,
    {
        proof {
            use_type_invariant(&*self);
        }
        self.well_formed();
        if self.registry.is_none() {
            return None;
        }
        let flags: Vec<bool> = self.enabled_flags();
        let mut scheduler: ModeScheduler = self.scheduler;
        scheduler.tick(dt, self.settings.auto_switch(), &flags);
        self.scheduler = scheduler;
        self.time_micros = if dt > u64::MAX - self.time_micros {
            u64::MAX
        } else {
            self.time_micros + dt
        };
        let active: usize = scheduler.state.active();
        let kind: EffectKind = match &self.registry {
            Some(registry) => {
                let _ = registry.len();
                match registry.kind_of(active) {
                    Some(kind) => kind,
                    None => EffectKind::Spectrum,
                }
            },
            None => EffectKind::Spectrum,
        };
        let analyzer: SpectrumAnalyzer = SpectrumAnalyzer::standard();
        let pool: ParticlePool = ParticlePool::standard();
        let plan = FramePlan {
            uniforms: VisUniforms {
                color: self.settings.scheme_color(),
                intensity: self.intensity,
                resolution: [self.width, self.height],
                mode: active as u32,
                time: self.time_micros,
                smoothing_factor: self.settings.smoothing_factor(),
                gain: self.settings.gain(),
            },
            kind,
            payload_len: analyzer.payload_len(kind),
            bass_bins: analyzer.bass_bins(),
            bass_boost: self.settings.bass_boost(),
            workgroups: pool.dispatch_count(),
            particles: pool.size(),
            state: scheduler.state,
            progress_milli: scheduler.state.progress_milli(),
        };
        assert(plan.uniforms.resolution@ =~= seq![self.width, self.height]);
        Some(plan)
    }
}

/// Every engine that the operations can produce from a well-formed one is
/// well-formed.
pub proof fn lemma_operations_keep_wf(
    app: AppView,
    dt: u64,
    key: Key,
    width: u32,
    height: u32,
    plugins: Seq<PluginView>,
)
    requires
        app.wf(),
        0 < plugins.len() <= u32::MAX,
    ensures
        app.after_frame(dt).wf(),
        app.after_key(key).wf(),
        app.after_resize(width, height).wf(),
        app.after_install(plugins).wf(),
{
    if app.installed() {
        crate::scheduler::lemma_tick_keeps_bounds(
            app.scheduler,
            dt,
            app.settings.auto_switch(),
            app.enabled(),
        );
        crate::scheduler::lemma_request_keeps_bounds(app.scheduler, app.enabled());
    }
}

/// The law of the frame's parameters: a frame writes the intensity, gain,
/// smoothing factor and resolution that the engine holds when the frame is
/// drawn, so what was set last is what the frame's passes read, and nothing
/// of an earlier frame is left in them.
pub proof fn lemma_frame_reads_what_was_set(
    app: AppView,
    intensity: u32,
    settings: SettingsView,
    width: u32,
    height: u32,
    dt: u64,
)
    requires
        app.installed(),
        intensity <= MAX_INTENSITY,
    ensures
        ({
            let set = AppView { intensity, settings, ..app }.after_resize(width, height);
            let uniforms = set.after_frame(dt).frame_plan().uniforms;
            &&& uniforms.intensity == intensity
            &&& uniforms.gain == settings.gain
            &&& uniforms.smoothing_factor == settings.smoothing_factor
            &&& uniforms.resolution == seq![width, height]
            &&& uniforms.color == settings.color_scheme.spec_color()
        }),
        ({
            let uniforms = app.after_frame(dt).frame_plan().uniforms;
            &&& uniforms.intensity == app.intensity
            &&& uniforms.gain == app.settings.gain
            &&& uniforms.smoothing_factor == app.settings.smoothing_factor
            &&& uniforms.resolution == seq![app.width, app.height]
        }),
{
}

} // verus!
