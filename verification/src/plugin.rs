use crate::constants::{COMPUTE_PARTICLES_SHADER, PARTICLE_RENDER_SHADER};
use crate::error::{AppError, AppErrorView};
use crate::settings::AppSettings;
use crate::text::{
    ascii_lowercase, chars_of, contains, ends_with, lemma_contains, matches_at,
    spec_ascii_lowercase, spec_contains, spec_ends_with,
};
use vstd::prelude::*;
use vstd::string::*;

verus! {

/// Which analysis an effect is fed with.
#[derive(Clone, Copy, Debug, PartialEq, Eq, Structural)]
pub enum EffectKind {
    /// The smoothed magnitude spectrum.
    Spectrum,
    /// The samples of the snapshot themselves.
    Waveform,
}

/// The group under which an effect is listed.
#[derive(Clone, Copy, Debug, PartialEq, Eq, Structural)]
pub enum EffectCategory {
    Spectrum,
    Waveform,
    ThreeD,
    Abstract,
}

impl EffectCategory {
    /// The heading of the group.
    pub open spec fn spec_label(self) -> Seq<char> {
        match self {
            EffectCategory::Spectrum => "Spectrum"@,
            EffectCategory::Waveform => "Waveform"@,
            EffectCategory::ThreeD => "3D"@,
            EffectCategory::Abstract => "Abstract"@,
        }
    }

    pub fn label(self) -> (label: &'static str)
        ensures
            label@ == self.spec_label(),
    {
        match self {
            EffectCategory::Spectrum => "Spectrum",
            EffectCategory::Waveform => "Waveform",
            EffectCategory::ThreeD => "3D",
            EffectCategory::Abstract => "Abstract",
        }
    }
}

/// An effect is fed the spectrum unless its name holds `waveform`.
pub open spec fn spec_is_spectrum(name: Seq<char>) -> bool {
    !spec_contains(name, "waveform"@)
}

/// The group of an effect, by what its name holds when capitals are
/// disregarded: `waveform` before `3d` before `spectrum`; any other name is
/// abstract.
pub open spec fn spec_category(name: Seq<char>) -> EffectCategory {
    let folded = spec_ascii_lowercase(name);
    if spec_contains(folded, "waveform"@) {
        EffectCategory::Waveform
    } else if spec_contains(folded, "3d"@) {
        EffectCategory::ThreeD
    } else if spec_contains(folded, "spectrum"@) {
        EffectCategory::Spectrum
    } else {
        EffectCategory::Abstract
    }
}

/// Whether an effect of this name is fed the spectrum.
pub fn is_spectrum_name(name: &str) -> (spectrum: bool)
    ensures
        spectrum == spec_is_spectrum(name@),
{
    let chars: Vec<char> = chars_of(name);
    let pattern: Vec<char> = chars_of("waveform");
    !contains(&chars, &pattern)
}

/// The group under which an effect of this name is listed.
pub fn category_of(name: &str) -> (category: EffectCategory)
    ensures
        category == spec_category(name@),
{
    let chars: Vec<char> = chars_of(name);
    let folded: Vec<char> = ascii_lowercase(&chars);
    let waveform: Vec<char> = chars_of("waveform");
    let three_d: Vec<char> = chars_of("3d");
    let spectrum: Vec<char> = chars_of("spectrum");
    if contains(&folded, &waveform) {
        EffectCategory::Waveform
    } else if contains(&folded, &three_d) {
        EffectCategory::ThreeD
    } else if contains(&folded, &spectrum) {
        EffectCategory::Spectrum
    } else {
        EffectCategory::Abstract
    }
}

/// An effect fed the waveform is listed under the waveform group.
pub proof fn lemma_waveform_kind_is_waveform_category(name: Seq<char>)
    requires
        !spec_is_spectrum(name),
    ensures
        spec_category(name) == EffectCategory::Waveform,
{
    reveal_strlit("waveform");
    let pattern = "waveform"@;
    let folded = spec_ascii_lowercase(name);
    lemma_contains(name, pattern);
    lemma_contains(folded, pattern);
    let at = choose|i: int| matches_at(name, i, pattern);
    assert(matches_at(folded, at, pattern)) by {
        assert forall|k: int| 0 <= k < pattern.len() implies folded[at + k] == pattern[k] by {
            assert(name[at + k] == pattern[k]);
        }
    }
}

/// One effect of the gallery.
#[derive(Debug, Clone, PartialEq, Eq)]
pub struct Plugin {
    pub name: String,
    /// Whether the effect is fed the spectrum, else the waveform.
    pub is_spectrum: bool,
}

/// The content of a [`Plugin`].
pub struct PluginView {
    pub name: Seq<char>,
    pub is_spectrum: bool,
}

impl View for Plugin {
    type V = PluginView;

    open spec fn view(&self) -> PluginView {
        PluginView { name: self.name@, is_spectrum: self.is_spectrum }
    }
}

impl PluginView {
    pub open spec fn kind(self) -> EffectKind {
        if self.is_spectrum {
            EffectKind::Spectrum
        } else {
            EffectKind::Waveform
        }
    }

    /// The effect of this name, classified by its name.
    pub open spec fn named(name: Seq<char>) -> PluginView {
        PluginView { name, is_spectrum: spec_is_spectrum(name) }
    }
}

impl Plugin {
    /// The effect called `name`, classified by its name.
    pub fn new(name: &str) -> (plugin: Plugin)
        ensures
            plugin@ == PluginView::named(name@),
    {
        Plugin { name: String::from_str(name), is_spectrum: is_spectrum_name(name) }
    }

    pub fn kind(&self) -> (kind: EffectKind)
        ensures
            kind == self@.kind(),
    {
        if self.is_spectrum {
            EffectKind::Spectrum
        } else {
            EffectKind::Waveform
        }
    }

    pub fn category(&self) -> (category: EffectCategory)
        ensures
            category == spec_category(self@.name),
    {
        category_of(self.name.as_str())
    }
}

/// The name of the effect that a file of the shader directory holds: the
/// file's name without its extension, for a file with the shader extension
/// and something before it that is not one of the two particle shaders.
pub open spec fn spec_plugin_name(file_name: Seq<char>) -> Option<Seq<char>> {
    if spec_ends_with(file_name, ".wgsl"@) && file_name.len() > 5 && file_name
        != COMPUTE_PARTICLES_SHADER@ && file_name != PARTICLE_RENDER_SHADER@ {
        Some(file_name.take(file_name.len() - 5))
    } else {
        None
    }
}

/// The names of the effects that a directory listing holds, in its order.
pub open spec fn spec_plugin_names(file_names: Seq<String>) -> Seq<Seq<char>>
    decreases file_names.len(),
{
    if file_names.len() == 0 {
        Seq::empty()
    } else {
        let before = spec_plugin_names(file_names.drop_last());
        match spec_plugin_name(file_names.last()@) {
            Some(name) => before.push(name),
            None => before,
        }
    }
}

/// The contents of a list of effects.
pub open spec fn plugin_views(plugins: Seq<Plugin>) -> Seq<PluginView> {
    Seq::new(plugins.len(), |i: int| plugins[i]@)
}

/// The effects of the given names, each classified by its name.
pub open spec fn named_views(names: Seq<Seq<char>>) -> Seq<PluginView> {
    Seq::new(names.len(), |i: int| PluginView::named(names[i]))
}

/// The message of the error for a gallery without effects.
pub open spec fn no_plugins_message() -> Seq<char> {
    "No visualization plugins found in shader directory"@
}

/// The message of the error for a gallery with more effects than can be
/// numbered.
pub open spec fn too_many_plugins_message() -> Seq<char> {
    "Too many visualization plugins"@
}

/// Whether two texts hold the same characters.
fn same_chars(a: &Vec<char>, b: &Vec<char>) -> (same: bool)
    ensures
        same == (a@ == b@),
{
    if a.len() != b.len() {
        return false;
    }
    let mut i: usize = 0;
    while i < a.len()
        invariant
            i <= a@.len(),
            a@.len() == b@.len(),
            forall|j: int| 0 <= j < i ==> a@[j] == b@[j],
        decreases a@.len() - i,
    {
        if a[i] != b[i] {
            return false;
        }
        i += 1;
    }
    assert(a@ =~= b@);
    true
}

/// The name of the effect that the file called `file_name` holds, if it
/// holds one.
pub fn plugin_name(file_name: &str) -> (name: Option<String>)
    ensures
        match name {
            Some(n) => spec_plugin_name(file_name@) == Some(n@),
            None => spec_plugin_name(file_name@) is None,
        },
{
    let chars: Vec<char> = chars_of(file_name);
    let suffix: Vec<char> = chars_of(".wgsl");
    proof {
        reveal_strlit(".wgsl");
    }
    if !ends_with(&chars, &suffix) || chars.len() <= 5 {
        return None;
    }
    let compute: Vec<char> = chars_of(COMPUTE_PARTICLES_SHADER);
    let render: Vec<char> = chars_of(PARTICLE_RENDER_SHADER);
    if same_chars(&chars, &compute) || same_chars(&chars, &render) {
        return None;
    }
    let stem: &str = file_name.substring_char(0, chars.len() - 5);
    assert(file_name@.subrange(0, chars@.len() - 5) =~= file_name@.take(file_name@.len() - 5));
    Some(String::from_str(stem))
}

/// Builds the gallery from the names of the files of the shader directory,
/// in the order given: one effect for each shader file that is not one of
/// the two particle shaders, named after the file and classified by that
/// name. A directory without any effect is refused.
pub fn load_plugins(file_names: &Vec<String>) -> (loaded: Result<Vec<Plugin>, AppError>)
    ensures
        match loaded {
            Ok(plugins) => plugins@.len() > 0 && plugin_views(plugins@) == named_views(
                spec_plugin_names(file_names@),
            ),
            Err(e) => spec_plugin_names(file_names@).len() == 0 && e@ == AppErrorView::Plugin(
                no_plugins_message(),
            ),
        },
{
    let mut plugins: Vec<Plugin> = Vec::new();
    let mut i: usize = 0;
    assert(file_names@.take(0) =~= Seq::empty());
    while i < file_names.len()
        invariant
            i <= file_names@.len(),
            plugin_views(plugins@) =~= named_views(spec_plugin_names(file_names@.take(i as int))),
        decreases file_names@.len() - i,
    {
        let ghost before = plugins@;
        let ghost names_before = spec_plugin_names(file_names@.take(i as int));
        assert(file_names@.take(i as int + 1).drop_last() =~= file_names@.take(i as int));
        assert(file_names@.take(i as int + 1).last() == file_names@[i as int]);
        match plugin_name(file_names[i].as_str()) {
            Some(name) => {
                plugins.push(Plugin::new(name.as_str()));
                assert(spec_plugin_names(file_names@.take(i as int + 1)) == names_before.push(
                    name@,
                ));
                assert(plugin_views(plugins@) =~= plugin_views(before).push(
                    PluginView::named(name@),
                ));
                assert(named_views(names_before.push(name@)) =~= named_views(names_before).push(
                    PluginView::named(name@),
                ));
            },
            None => {
                assert(spec_plugin_names(file_names@.take(i as int + 1)) == names_before);
            },
        }
        i += 1;
    }
    assert(file_names@.take(file_names@.len() as int) =~= file_names@);
    if plugins.len() == 0 {
        Err(
            AppError::Plugin(
                String::from_str("No visualization plugins found in shader directory"),
            ),
        )
    } else {
        Ok(plugins)
    }
}

/// The gallery of effects: fixed after startup, ordered, never empty.
#[derive(Debug)]
pub struct EffectRegistry {
    plugins: Vec<Plugin>,
}

impl View for EffectRegistry {
    type V = Seq<PluginView>;

    closed spec fn view(&self) -> Seq<PluginView> {
        plugin_views(self.plugins@)
    }
}

impl EffectRegistry {
    #[verifier::type_invariant]
    spec fn inv(self) -> bool {
        0 < self.plugins@.len() <= u32::MAX
    }

    /// The gallery of the given effects, in their order. A gallery needs at
    /// least one effect, and no more than can be numbered in 32 bits.
    pub fn new(plugins: Vec<Plugin>) -> (registry: Result<EffectRegistry, AppError>)
        ensures
            match registry {
                Ok(r) => r@ == plugin_views(plugins@) && 0 < plugins@.len() <= u32::MAX,
                Err(e) => {
                    ||| plugins@.len() == 0 && e@ == AppErrorView::Plugin(no_plugins_message())
                    ||| plugins@.len() > u32::MAX && e@ == AppErrorView::Plugin(
                        too_many_plugins_message(),
                    )
                },
            },
    {
        if plugins.len() == 0 {
            Err(
                AppError::Plugin(
                    String::from_str("No visualization plugins found in shader directory"),
                ),
            )
        } else if plugins.len() > 0xffff_ffff {
            Err(AppError::Plugin(String::from_str("Too many visualization plugins")))
        } else {
            Ok(EffectRegistry { plugins })
        }
    }

    /// Number of effects; never zero.
    pub fn len(&self) -> (len: usize)
        ensures
            len == self@.len(),
            0 < len <= u32::MAX,
    {
        proof {
            use_type_invariant(self);
        }
        self.plugins.len()
    }

    /// The effect at `index`, for an index of the gallery.
    pub fn get(&self, index: usize) -> (plugin: Option<&Plugin>)
        ensures
            index < self@.len() <==> plugin is Some,
            plugin matches Some(p) ==> p@ == self@[index as int],
    {
        if index < self.plugins.len() {
            Some(&self.plugins[index])
        } else {
            None
        }
    }

    /// The analysis that the effect at `index` is fed with, for an index of
    /// the gallery.
    pub fn kind_of(&self, index: usize) -> (kind: Option<EffectKind>)
        ensures
            index < self@.len() <==> kind is Some,
            kind matches Some(k) ==> k == self@[index as int].kind(),
    {
        if index < self.plugins.len() {
            Some(self.plugins[index].kind())
        } else {
            None
        }
    }

    /// The effects in order.
    pub fn plugins(&self) -> (plugins: &Vec<Plugin>)
        ensures
            plugin_views(plugins@) == self@,
    {
        &self.plugins
    }

    /// For each effect of the gallery, whether the settings leave it enabled.
    pub fn enabled_flags(&self, settings: &AppSettings) -> (flags: Vec<bool>)
        ensures
            flags@.len() == self@.len(),
            forall|i: int|
                0 <= i < flags@.len() ==> flags@[i] == !settings@.disabled_plugins.contains(
                    self@[i].name,
                ),
    {
        let mut flags: Vec<bool> = Vec::new();
        let mut i: usize = 0;
        while i < self.plugins.len()
            invariant
                i <= self.plugins@.len(),
                flags@.len() == i,
                forall|j: int|
                    0 <= j < i ==> flags@[j] == !settings@.disabled_plugins.contains(
                        self.plugins@[j]@.name,
                    ),
            decreases self.plugins@.len() - i,
        {
            let disabled: bool = settings.is_plugin_disabled(self.plugins[i].name.as_str());
            flags.push(!disabled);
            i += 1;
        }
        flags
    }
}

} // verus!
