use crate::constants::DEFAULT_TRANSPARENCY;
use crate::scheduler::AutoSwitch;
use vstd::prelude::*;
use vstd::string::*;

verus! {

/// Lowest smoothing factor, in thousandths.
pub const MIN_SMOOTHING: u32 = 10;

/// Highest smoothing factor, in thousandths.
pub const MAX_SMOOTHING: u32 = 300;

/// Lowest gain, in thousandths.
pub const MIN_GAIN: u32 = 500;

/// Highest gain, in thousandths.
pub const MAX_GAIN: u32 = 5000;

/// Shortest time between two automatic switches, in seconds.
pub const MIN_SWITCH_SECONDS: u32 = 5;

/// Longest time between two automatic switches, in seconds.
pub const MAX_SWITCH_SECONDS: u32 = 120;

/// The palette from which the base color is taken.
#[derive(Debug, Clone, Copy, PartialEq, Eq, Structural)]
pub enum ColorScheme {
    Classic,
    Neon,
    Pastel,
    Fire,
}

impl ColorScheme {
    /// The scheme's base color as red, green, blue and alpha, in thousandths.
    pub open spec fn spec_color(self) -> Seq<u32> {
        match self {
            ColorScheme::Classic => seq![1000u32, 1000u32, 1000u32, 1000u32],
            ColorScheme::Neon => seq![0u32, 1000u32, 800u32, 1000u32],
            ColorScheme::Pastel => seq![800u32, 700u32, 1000u32, 1000u32],
            ColorScheme::Fire => seq![1000u32, 400u32, 0u32, 1000u32],
        }
    }

    pub fn color(self) -> (rgba: [u32; 4])
        ensures
            rgba@ == self.spec_color(),
    {
        match self {
            ColorScheme::Classic => [1000, 1000, 1000, 1000],
            ColorScheme::Neon => [0, 1000, 800, 1000],
            ColorScheme::Pastel => [800, 700, 1000, 1000],
            ColorScheme::Fire => [1000, 400, 0, 1000],
        }
    }
}

/// `value` held between `low` and `high`.
pub open spec fn spec_clamp(value: u32, low: u32, high: u32) -> u32 {
    if value < low {
        low
    } else if value > high {
        high
    } else {
        value
    }
}

fn clamp(value: u32, low: u32, high: u32) -> (held: u32)
    ensures
        held == spec_clamp(value, low, high),
{
    if value < low {
        low
    } else if value > high {
        high
    } else {
        value
    }
}

/// The names that a list of names holds.
pub open spec fn names_of(names: Seq<String>) -> Set<Seq<char>> {
    Set::new(|name: Seq<char>| exists|i: int| 0 <= i < names.len() && names[i]@ == name)
}

/// What the user has set. Values with a range are held inside it; fractions
/// are held in thousandths.
#[derive(Debug, Clone)]
pub struct AppSettings {
    show_settings: bool,
    transparency: u8,
    auto_switch_modes: bool,
    ranged: Ranged,
    color_scheme: ColorScheme,
    bass_boost: u32,
    disabled_plugins: Vec<String>,
}

/// The values that have a range, each inside it.
#[derive(Debug, Clone, Copy)]
struct Ranged {
    mode_switch_seconds: u32,
    smoothing_factor: u32,
    gain: u32,
}

impl Ranged {
    #[verifier::type_invariant]
    spec fn inv(self) -> bool {
        &&& MIN_SWITCH_SECONDS <= self.mode_switch_seconds <= MAX_SWITCH_SECONDS
        &&& MIN_SMOOTHING <= self.smoothing_factor <= MAX_SMOOTHING
        &&& MIN_GAIN <= self.gain <= MAX_GAIN
    }
}

/// The content of [`AppSettings`].
pub struct SettingsView {
    /// Whether the settings panel is open.
    pub show_settings: bool,
    /// Opacity of the see-through window, out of 255.
    pub transparency: u8,
    /// Whether the engine moves on to the next effect by itself.
    pub auto_switch_modes: bool,
    /// Seconds between two automatic switches.
    pub mode_switch_seconds: u32,
    /// Weight of the newest spectrum in the smoothed one, in thousandths.
    pub smoothing_factor: u32,
    /// Factor on the analyzed signal, in thousandths.
    pub gain: u32,
    pub color_scheme: ColorScheme,
    /// Factor on the bass energy, in thousandths.
    pub bass_boost: u32,
    /// Names of the effects that switching skips.
    pub disabled_plugins: Set<Seq<char>>,
}

impl SettingsView {
    /// The settings the engine starts with.
    pub open spec fn initial() -> SettingsView {
        SettingsView {
            show_settings: false,
            transparency: DEFAULT_TRANSPARENCY,
            auto_switch_modes: false,
            mode_switch_seconds: 30,
            smoothing_factor: 100,
            gain: 1500,
            color_scheme: ColorScheme::Classic,
            bass_boost: 1000,
            disabled_plugins: Set::empty(),
        }
    }

    /// Every ranged value is inside its range.
    pub open spec fn in_range(self) -> bool {
        &&& MIN_SWITCH_SECONDS <= self.mode_switch_seconds <= MAX_SWITCH_SECONDS
        &&& MIN_SMOOTHING <= self.smoothing_factor <= MAX_SMOOTHING
        &&& MIN_GAIN <= self.gain <= MAX_GAIN
    }

    /// The auto-switch rule that these settings ask for.
    pub open spec fn auto_switch(self) -> AutoSwitch {
        AutoSwitch {
            enabled: self.auto_switch_modes,
            interval_micros: (self.mode_switch_seconds * 1000000) as u64,
        }
    }
}

impl View for AppSettings {
    type V = SettingsView;

    closed spec fn view(&self) -> SettingsView {
        SettingsView {
            show_settings: self.show_settings,
            transparency: self.transparency,
            auto_switch_modes: self.auto_switch_modes,
            mode_switch_seconds: self.ranged.mode_switch_seconds,
            smoothing_factor: self.ranged.smoothing_factor,
            gain: self.ranged.gain,
            color_scheme: self.color_scheme,
            bass_boost: self.bass_boost,
            disabled_plugins: names_of(self.disabled_plugins@),
        }
    }
}

impl AppSettings {
    /// The settings the engine starts with.
    pub fn new() -> (settings: AppSettings)
        ensures
            settings@ == SettingsView::initial(),
    {
        let settings = AppSettings {
            show_settings: false,
            transparency: DEFAULT_TRANSPARENCY,
            auto_switch_modes: false,
            ranged: Ranged { mode_switch_seconds: 30, smoothing_factor: 100, gain: 1500 },
            color_scheme: ColorScheme::Classic,
            bass_boost: 1000,
            disabled_plugins: Vec::new(),
        };
        assert(settings@.disabled_plugins =~= Set::empty());
        settings
    }

    /// The base color of the chosen scheme as red, green, blue and alpha, in
    /// thousandths.
    pub fn scheme_color(&self) -> (rgba: [u32; 4])
        ensures
            rgba@ == self@.color_scheme.spec_color(),
    {
        self.color_scheme.color()
    }

    /// Whether switching skips the effect called `name`.
    pub fn is_plugin_disabled(&self, name: &str) -> (disabled: bool)
        ensures
            disabled == self@.disabled_plugins.contains(name@),
    {
        let wanted: String = String::from_str(name);
        let mut i: usize = 0;
        while i < self.disabled_plugins.len()
            invariant
                i <= self.disabled_plugins@.len(),
                wanted@ == name@,
                forall|j: int| 0 <= j < i ==> self.disabled_plugins@[j]@ != name@,
            decreases self.disabled_plugins@.len() - i,
        {
            if self.disabled_plugins[i].eq(&wanted) {
                return true;
            }
            i += 1;
        }
        false
    }

    /// Makes switching skip the effect called `name`.
    pub fn disable_plugin(&mut self, name: &str)
        ensures
            final(self)@ == (SettingsView {
                disabled_plugins: old(self)@.disabled_plugins.insert(name@),
                ..old(self)@
            }),
    {
        if !self.is_plugin_disabled(name) {
            let ghost before = self.disabled_plugins@;
            self.disabled_plugins.push(String::from_str(name));
            assert forall|n: Seq<char>|
                names_of(self.disabled_plugins@).contains(n) == names_of(before).insert(
                    name@,
                ).contains(n) by {
                if names_of(self.disabled_plugins@).contains(n) {
                    let i = choose|i: int|
                        0 <= i < self.disabled_plugins@.len() && self.disabled_plugins@[i]@ == n;
                    if i < before.len() {
                        assert(before[i]@ == n);
                    }
                }
                if names_of(before).contains(n) {
                    let i = choose|i: int| 0 <= i < before.len() && before[i]@ == n;
                    assert(self.disabled_plugins@[i]@ == n);
                }
                if n == name@ {
                    assert(self.disabled_plugins@[before.len() as int]@ == n);
                }
            }
            assert(names_of(self.disabled_plugins@) =~= names_of(before).insert(name@));
        } else {
            assert(self@.disabled_plugins.insert(name@) =~= self@.disabled_plugins);
        }
    }

    /// Lets switching reach the effect called `name` again.
    pub fn enable_plugin(&mut self, name: &str)
        ensures
            final(self)@ == (SettingsView {
                disabled_plugins: old(self)@.disabled_plugins.remove(name@),
                ..old(self)@
            }),
    {
        let wanted: String = String::from_str(name);
        let ghost before = self.disabled_plugins@;
        let mut kept: Vec<String> = Vec::new();
        let mut rest: Vec<String> = Vec::new();
        rest.append(&mut self.disabled_plugins);
        assert(rest@ =~= before);
        while rest.len() > 0
            invariant
                wanted@ == name@,
                forall|n: Seq<char>|
                    names_of(before).remove(name@).contains(n) == (names_of(kept@).contains(n)
                        || names_of(rest@).remove(name@).contains(n)),
                !names_of(kept@).contains(name@),
            decreases rest@.len(),
        {
            let ghost rest_before = rest@;
            let ghost kept_before = kept@;
            let entry: String = rest.pop().unwrap();
            let same: bool = entry.eq(&wanted);
            if !same {
                kept.push(entry);
            }
            assert forall|n: Seq<char>|
                names_of(before).remove(name@).contains(n) == (names_of(kept@).contains(n)
                    || names_of(rest@).remove(name@).contains(n)) by {
                let last = rest_before.len() - 1;
                if names_of(kept@).contains(n) {
                    let i = choose|i: int| 0 <= i < kept@.len() && kept@[i]@ == n;
                    if i < kept_before.len() {
                        assert(kept_before[i]@ == n);
                    } else {
                        assert(rest_before[last]@ == n);
                    }
                }
                if names_of(rest@).contains(n) {
                    let i = choose|i: int| 0 <= i < rest@.len() && rest@[i]@ == n;
                    assert(rest_before[i]@ == n);
                }
                if names_of(kept_before).contains(n) {
                    let i = choose|i: int| 0 <= i < kept_before.len() && kept_before[i]@ == n;
                    assert(kept@[i]@ == n);
                }
                if names_of(rest_before).contains(n) && n != name@ {
                    let i = choose|i: int| 0 <= i < rest_before.len() && rest_before[i]@ == n;
                    if i < last {
                        assert(rest@[i]@ == n);
                    } else {
                        assert(kept@[kept_before.len() as int]@ == n);
                    }
                }
            }
            assert(!names_of(kept@).contains(name@)) by {
                if names_of(kept@).contains(name@) {
                    let i = choose|i: int| 0 <= i < kept@.len() && kept@[i]@ == name@;
                    if i < kept_before.len() {
                        assert(kept_before[i]@ == name@);
                    }
                }
            }
        }
        self.disabled_plugins = kept;
        assert(names_of(kept@) =~= names_of(before).remove(name@));
    }

    /// The names of the effects that switching skips.
    pub fn disabled_plugins(&self) -> (names: &Vec<String>)
        ensures
            names_of(names@) == self@.disabled_plugins,
    {
        &self.disabled_plugins
    }

    /// The auto-switch rule that these settings ask for.
    pub fn auto_switch(&self) -> (auto: AutoSwitch)
        ensures
            auto == self@.auto_switch(),
            self@.in_range(),
    {
        proof {
            use_type_invariant(&self.ranged);
        }
        AutoSwitch {
            enabled: self.auto_switch_modes,
            interval_micros: (self.ranged.mode_switch_seconds as u64) * 1000000,
        }
    }

    pub fn show_settings(&self) -> (show: bool)
        ensures
            show == self@.show_settings,
    {
        self.show_settings
    }

    pub fn set_show_settings(&mut self, show: bool)
        ensures
            final(self)@ == (SettingsView { show_settings: show, ..old(self)@ }),
    {
        self.show_settings = show;
    }

    pub fn transparency(&self) -> (opacity: u8)
        ensures
            opacity == self@.transparency,
    {
        self.transparency
    }

    pub fn set_transparency(&mut self, opacity: u8)
        ensures
            final(self)@ == (SettingsView { transparency: opacity, ..old(self)@ }),
    {
        self.transparency = opacity;
    }

    pub fn auto_switch_modes(&self) -> (on: bool)
        ensures
            on == self@.auto_switch_modes,
    {
        self.auto_switch_modes
    }

    pub fn set_auto_switch_modes(&mut self, on: bool)
        ensures
            final(self)@ == (SettingsView { auto_switch_modes: on, ..old(self)@ }),
    {
        self.auto_switch_modes = on;
    }

    pub fn mode_switch_seconds(&self) -> (seconds: u32)
        ensures
            seconds == self@.mode_switch_seconds,
            MIN_SWITCH_SECONDS <= seconds <= MAX_SWITCH_SECONDS,
    {
        proof {
            use_type_invariant(&self.ranged);
        }
        self.ranged.mode_switch_seconds
    }

    /// Sets the time between two automatic switches, held inside its range.
    pub fn set_mode_switch_seconds(&mut self, seconds: u32)
        ensures
            final(self)@ == (SettingsView {
                mode_switch_seconds: spec_clamp(seconds, MIN_SWITCH_SECONDS, MAX_SWITCH_SECONDS),
                ..old(self)@
            }),
    {
        proof {
            use_type_invariant(&self.ranged);
        }
        self.ranged.mode_switch_seconds = clamp(seconds, MIN_SWITCH_SECONDS, MAX_SWITCH_SECONDS);
    }

    pub fn smoothing_factor(&self) -> (factor: u32)
        ensures
            factor == self@.smoothing_factor,
            MIN_SMOOTHING <= factor <= MAX_SMOOTHING,
    {
        proof {
            use_type_invariant(&self.ranged);
        }
        self.ranged.smoothing_factor
    }

    /// Sets the smoothing factor, in thousandths, held inside its range.
    pub fn set_smoothing_factor(&mut self, factor: u32)
        ensures
            final(self)@ == (SettingsView {
                smoothing_factor: spec_clamp(factor, MIN_SMOOTHING, MAX_SMOOTHING),
                ..old(self)@
            }),
    {
        proof {
            use_type_invariant(&self.ranged);
        }
        self.ranged.smoothing_factor = clamp(factor, MIN_SMOOTHING, MAX_SMOOTHING);
    }

    pub fn gain(&self) -> (gain: u32)
        ensures
            gain == self@.gain,
            MIN_GAIN <= gain <= MAX_GAIN,
    {
        proof {
            use_type_invariant(&self.ranged);
        }
        self.ranged.gain
    }

    /// Sets the gain, in thousandths, held inside its range.
    pub fn set_gain(&mut self, gain: u32)
        ensures
            final(self)@ == (SettingsView {
                gain: spec_clamp(gain, MIN_GAIN, MAX_GAIN),
                ..old(self)@
            }),
    {
        proof {
            use_type_invariant(&self.ranged);
        }
        self.ranged.gain = clamp(gain, MIN_GAIN, MAX_GAIN);
    }

    pub fn color_scheme(&self) -> (scheme: ColorScheme)
        ensures
            scheme == self@.color_scheme,
    {
        self.color_scheme
    }

    pub fn set_color_scheme(&mut self, scheme: ColorScheme)
        ensures
            final(self)@ == (SettingsView { color_scheme: scheme, ..old(self)@ }),
    {
        self.color_scheme = scheme;
    }

    pub fn bass_boost(&self) -> (boost: u32)
        ensures
            boost == self@.bass_boost,
    {
        self.bass_boost
    }

    pub fn set_bass_boost(&mut self, boost: u32)
        ensures
            final(self)@ == (SettingsView { bass_boost: boost, ..old(self)@ }),
    {
        self.bass_boost = boost;
    }
}

impl Default for AppSettings {
    fn default() -> (settings: AppSettings)
        ensures
            settings@ == SettingsView::initial(),
    {
        AppSettings::new()
    }
}

} // verus!
