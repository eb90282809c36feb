//! Player-facing game settings: the options, how each cycles to the next
//! value, their labels and defaults, and what they mean for the renderer.

use crate::text::{decimal, push_char, push_decimal};
use vstd::prelude::*;

verus! {

/// File the settings are stored in.
pub const SETTINGS_FILE_PATH: &'static str = "./settings.yaml";

/// Window presentation mode.
#[derive(Debug, Clone, Copy, PartialEq, Eq, Structural)]
pub enum WindowModeSetting {
    Windowed,
    Fullscreen,
}

impl Default for WindowModeSetting {
    fn default() -> (r: Self)
        ensures
            r == WindowModeSetting::Windowed,
    {
        Self::Windowed
    }
}

impl WindowModeSetting {
    /// Every window mode, in menu order.
    pub fn all() -> (r: [Self; 2])
        ensures
            r@ == seq![WindowModeSetting::Windowed, WindowModeSetting::Fullscreen],
    {
        let r = [Self::Windowed, Self::Fullscreen];
        assert(r@ =~= seq![WindowModeSetting::Windowed, WindowModeSetting::Fullscreen]);
        r
    }

    /// The mode after `self` in menu order, wrapping around.
    pub open spec fn spec_next(self) -> Self {
        match self {
            Self::Windowed => Self::Fullscreen,
            Self::Fullscreen => Self::Windowed,
        }
    }

    /// Returns the mode after `self` in menu order, wrapping around.
    pub fn next(self) -> (r: Self)
        ensures
            r == self.spec_next(),
    {
        match self {
            Self::Windowed => Self::Fullscreen,
            Self::Fullscreen => Self::Windowed,
        }
    }

    /// Text shown for the mode.
    pub open spec fn spec_label(self) -> Seq<char> {
        match self {
            Self::Windowed => "Windowed"@,
            Self::Fullscreen => "Fullscreen"@,
        }
    }

    /// Returns the text shown for the mode.
    pub fn label(self) -> (r: &'static str)
        ensures
            r@ == self.spec_label(),
    {
        match self {
            Self::Windowed => "Windowed",
            Self::Fullscreen => "Fullscreen",
        }
    }

    /// Whether the window keeps its configured resolution; fullscreen is
    /// borderless on the current monitor at the monitor's native size.
    pub fn is_windowed(self) -> (r: bool)
        ensures
            r == (self == WindowModeSetting::Windowed),
    {
        matches!(self, Self::Windowed)
    }
}

/// Shadow rendering quality.
#[derive(Debug, Clone, Copy, PartialEq, Eq, Structural)]
pub enum ShadowQualitySetting {
    Off,
    Low,
    Medium,
    High,
}

impl Default for ShadowQualitySetting {
    fn default() -> (r: Self)
        ensures
            r == ShadowQualitySetting::Low,
    {
        Self::Low
    }
}

/// Shadow filtering method applied to cameras.
#[derive(Debug, Clone, Copy, PartialEq, Eq, Structural)]
pub enum ShadowFilteringChoice {
    Hardware2x2,
    Gaussian,
}

/// What a shadow quality level sets on the sun light and the cameras.
#[derive(Debug, Clone, Copy, PartialEq, Eq, Structural)]
pub struct ShadowPlan {
    /// Whether the sun casts shadows.
    pub shadows_enabled: bool,
    /// Shadow map resolution, when shadows are on.
    pub shadow_map_size: Option<u32>,
    /// Number of shadow cascades, when shadows are on.
    pub num_cascades: Option<u32>,
    /// Far bound of the first cascade in world units, when shadows are on.
    pub first_cascade_far_bound: Option<u32>,
    /// Filtering installed on cameras, when shadows are on.
    pub filtering: Option<ShadowFilteringChoice>,
}

/// Minimum shadow distance of every cascade configuration, in world units.
pub const SHADOW_MINIMUM_DISTANCE: u32 = 10;

/// Maximum shadow distance of every cascade configuration, in world units.
pub const SHADOW_MAXIMUM_DISTANCE: u32 = 8000;

impl ShadowQualitySetting {
    /// Every quality level, in menu order.
    pub fn all() -> (r: [Self; 4])
        ensures
            r@ == seq![
                ShadowQualitySetting::Off,
                ShadowQualitySetting::Low,
                ShadowQualitySetting::Medium,
                ShadowQualitySetting::High,
            ],
    {
        let r = [Self::Off, Self::Low, Self::Medium, Self::High];
        assert(r@ =~= seq![
            ShadowQualitySetting::Off,
            ShadowQualitySetting::Low,
            ShadowQualitySetting::Medium,
            ShadowQualitySetting::High,
        ]);
        r
    }

    /// The level after `self` in menu order, wrapping around.
    pub open spec fn spec_next(self) -> Self {
        match self {
            Self::Off => Self::Low,
            Self::Low => Self::Medium,
            Self::Medium => Self::High,
            Self::High => Self::Off,
        }
    }

    /// Returns the level after `self` in menu order, wrapping around.
    pub fn next(self) -> (r: Self)
        ensures
            r == self.spec_next(),
    {
        match self {
            Self::Off => Self::Low,
            Self::Low => Self::Medium,
            Self::Medium => Self::High,
            Self::High => Self::Off,
        }
    }

    /// Text shown for the level.
    pub open spec fn spec_label(self) -> Seq<char> {
        match self {
            Self::Off => "Off"@,
            Self::Low => "Low"@,
            Self::Medium => "Medium"@,
            Self::High => "High"@,
        }
    }

    /// Returns the text shown for the level.
    pub fn label(self) -> (r: &'static str)
        ensures
            r@ == self.spec_label(),
    {
        match self {
            Self::Off => "Off",
            Self::Low => "Low",
            Self::Medium => "Medium",
            Self::High => "High",
        }
    }

    /// The renderer configuration of each level: `Off` disables shadows;
    /// `Low` uses a 1024 map, one cascade reaching 8000 and hardware 2x2
    /// filtering; `Medium` a 2048 map and two cascades, the first reaching
    /// 1200; `High` a 4096 map and three cascades, the first reaching 800;
    /// `Medium` and `High` use Gaussian filtering.
    pub open spec fn spec_shadow_plan(self) -> ShadowPlan {
        match self {
            Self::Off => ShadowPlan {
                shadows_enabled: false,
                shadow_map_size: None,
                num_cascades: None,
                first_cascade_far_bound: None,
                filtering: None,
            },
            Self::Low => ShadowPlan {
                shadows_enabled: true,
                shadow_map_size: Some(1024),
                num_cascades: Some(1),
                first_cascade_far_bound: Some(8000),
                filtering: Some(ShadowFilteringChoice::Hardware2x2),
            },
            Self::Medium => ShadowPlan {
                shadows_enabled: true,
                shadow_map_size: Some(2048),
                num_cascades: Some(2),
                first_cascade_far_bound: Some(1200),
                filtering: Some(ShadowFilteringChoice::Gaussian),
            },
            Self::High => ShadowPlan {
                shadows_enabled: true,
                shadow_map_size: Some(4096),
                num_cascades: Some(3),
                first_cascade_far_bound: Some(800),
                filtering: Some(ShadowFilteringChoice::Gaussian),
            },
        }
    }

    /// Returns the renderer configuration of this level; see
    /// [`ShadowQualitySetting::spec_shadow_plan`].
    pub fn shadow_plan(self) -> (r: ShadowPlan)
        ensures
            r == self.spec_shadow_plan(),
    {
        match self {
            Self::Off => ShadowPlan {
                shadows_enabled: false,
                shadow_map_size: None,
                num_cascades: None,
                first_cascade_far_bound: None,
                filtering: None,
            },
            Self::Low => ShadowPlan {
                shadows_enabled: true,
                shadow_map_size: Some(1024),
                num_cascades: Some(1),
                first_cascade_far_bound: Some(8000),
                filtering: Some(ShadowFilteringChoice::Hardware2x2),
            },
            Self::Medium => ShadowPlan {
                shadows_enabled: true,
                shadow_map_size: Some(2048),
                num_cascades: Some(2),
                first_cascade_far_bound: Some(1200),
                filtering: Some(ShadowFilteringChoice::Gaussian),
            },
            Self::High => ShadowPlan {
                shadows_enabled: true,
                shadow_map_size: Some(4096),
                num_cascades: Some(3),
                first_cascade_far_bound: Some(800),
                filtering: Some(ShadowFilteringChoice::Gaussian),
            },
        }
    }
}

/// Frame pacing of the event loop.
#[derive(Debug, Clone, Copy, PartialEq, Eq, Structural)]
pub enum UpdateModeChoice {
    /// Redraw at least every `1 / fps` seconds, reacting to events.
    Reactive { fps: u32 },
    /// Redraw continuously.
    Continuous,
}

/// Frame-rate cap.
#[derive(Debug, Clone, Copy, PartialEq, Eq, Structural)]
pub enum FpsLimitSetting {
    Default60,
    Monitor,
    Unlimited,
}

impl Default for FpsLimitSetting {
    fn default() -> (r: Self)
        ensures
            r == FpsLimitSetting::Default60,
    {
        Self::Default60
    }
}

impl FpsLimitSetting {
    /// Every frame-rate cap, in menu order.
    pub fn all() -> (r: [Self; 3])
        ensures
            r@ == seq![FpsLimitSetting::Default60, FpsLimitSetting::Monitor, FpsLimitSetting::Unlimited],
    {
        let r = [Self::Default60, Self::Monitor, Self::Unlimited];
        assert(r@ =~= seq![
            FpsLimitSetting::Default60,
            FpsLimitSetting::Monitor,
            FpsLimitSetting::Unlimited,
        ]);
        r
    }

    /// The cap after `self` in menu order, wrapping around.
    pub open spec fn spec_next(self) -> Self {
        match self {
            Self::Default60 => Self::Monitor,
            Self::Monitor => Self::Unlimited,
            Self::Unlimited => Self::Default60,
        }
    }

    /// Returns the cap after `self` in menu order, wrapping around.
    pub fn next(self) -> (r: Self)
        ensures
            r == self.spec_next(),
    {
        match self {
            Self::Default60 => Self::Monitor,
            Self::Monitor => Self::Unlimited,
            Self::Unlimited => Self::Default60,
        }
    }

    /// The event-loop pacing of the cap: reactive at 60 FPS for
    /// `Default60`, continuous otherwise.
    pub open spec fn spec_update_mode(self) -> UpdateModeChoice {
        match self {
            Self::Default60 => UpdateModeChoice::Reactive { fps: 60 },
            _ => UpdateModeChoice::Continuous,
        }
    }

    /// Returns the event-loop pacing of the cap.
    pub fn to_update_mode(self) -> (r: UpdateModeChoice)
        ensures
            r == self.spec_update_mode(),
    {
        match self {
            Self::Default60 => UpdateModeChoice::Reactive { fps: 60 },
            Self::Monitor | Self::Unlimited => UpdateModeChoice::Continuous,
        }
    }

    /// Text shown for the cap.
    pub open spec fn spec_label(self) -> Seq<char> {
        match self {
            Self::Default60 => "60 FPS"@,
            Self::Monitor => "Monitor"@,
            Self::Unlimited => "Unlimited"@,
        }
    }

    /// Returns the text shown for the cap.
    pub fn label(self) -> (r: &'static str)
        ensures
            r@ == self.spec_label(),
    {
        match self {
            Self::Default60 => "60 FPS",
            Self::Monitor => "Monitor",
            Self::Unlimited => "Unlimited",
        }
    }
}

/// How far scene objects stay visible.
#[derive(Debug, Clone, Copy, PartialEq, Eq, Structural)]
pub enum RenderDistanceSetting {
    Low,
    Medium,
    High,
    Ultra,
}

impl Default for RenderDistanceSetting {
    fn default() -> (r: Self)
        ensures
            r == RenderDistanceSetting::Medium,
    {
        Self::Medium
    }
}

impl RenderDistanceSetting {
    /// Every render distance, in menu order.
    pub fn all() -> (r: [Self; 4])
        ensures
            r@ == seq![
                RenderDistanceSetting::Low,
                RenderDistanceSetting::Medium,
                RenderDistanceSetting::High,
                RenderDistanceSetting::Ultra,
            ],
    {
        let r = [Self::Low, Self::Medium, Self::High, Self::Ultra];
        assert(r@ =~= seq![
            RenderDistanceSetting::Low,
            RenderDistanceSetting::Medium,
            RenderDistanceSetting::High,
            RenderDistanceSetting::Ultra,
        ]);
        r
    }

    /// The distance after `self` in menu order, wrapping around.
    pub open spec fn spec_next(self) -> Self {
        match self {
            Self::Low => Self::Medium,
            Self::Medium => Self::High,
            Self::High => Self::Ultra,
            Self::Ultra => Self::Low,
        }
    }

    /// Returns the distance after `self` in menu order, wrapping around.
    pub fn next(self) -> (r: Self)
        ensures
            r == self.spec_next(),
    {
        match self {
            Self::Low => Self::Medium,
            Self::Medium => Self::High,
            Self::High => Self::Ultra,
            Self::Ultra => Self::Low,
        }
    }

    /// Culling distance in world units: 2800, 5000, 8000 and 12000.
    pub open spec fn spec_max_distance(self) -> u32 {
        match self {
            Self::Low => 2800,
            Self::Medium => 5000,
            Self::High => 8000,
            Self::Ultra => 12000,
        }
    }

    /// Returns the culling distance in world units.
    pub fn max_distance(self) -> (r: u32)
        ensures
            r == self.spec_max_distance(),
    {
        match self {
            Self::Low => 2800,
            Self::Medium => 5000,
            Self::High => 8000,
            Self::Ultra => 12000,
        }
    }

    /// Text shown for the distance.
    pub open spec fn spec_label(self) -> Seq<char> {
        match self {
            Self::Low => "Low"@,
            Self::Medium => "Medium"@,
            Self::High => "High"@,
            Self::Ultra => "Ultra"@,
        }
    }

    /// Returns the text shown for the distance.
    pub fn label(self) -> (r: &'static str)
        ensures
            r@ == self.spec_label(),
    {
        match self {
            Self::Low => "Low",
            Self::Medium => "Medium",
            Self::High => "High",
            Self::Ultra => "Ultra",
        }
    }
}

/// Window resolution in pixels.
#[derive(Debug, Clone, Copy, PartialEq, Eq, Structural)]
pub struct ResolutionSetting {
    pub width: u32,
    pub height: u32,
}

impl Default for ResolutionSetting {
    fn default() -> (r: Self)
        ensures
            r == (ResolutionSetting { width: 1280, height: 720 }),
    {
        Self { width: 1280, height: 720 }
    }
}

/// The resolutions offered in the settings menu, in order: 1280x720,
/// 1600x900, 1920x1080 and 2560x1440.
pub open spec fn resolution_presets() -> Seq<ResolutionSetting> {
    seq![
        ResolutionSetting { width: 1280, height: 720 },
        ResolutionSetting { width: 1600, height: 900 },
        ResolutionSetting { width: 1920, height: 1080 },
        ResolutionSetting { width: 2560, height: 1440 },
    ]
}

impl ResolutionSetting {
    /// Returns the resolutions offered in the settings menu.
    pub fn presets() -> (r: Vec<Self>)
        ensures
            r@ == resolution_presets(),
    {
        let mut r: Vec<Self> = Vec::new();
        r.push(Self { width: 1280, height: 720 });
        r.push(Self { width: 1600, height: 900 });
        r.push(Self { width: 1920, height: 1080 });
        r.push(Self { width: 2560, height: 1440 });
        assert(r@ =~= resolution_presets());
        r
    }

    /// The preset after `self`: the one following it in the menu, wrapping
    /// around; a resolution that is no preset moves to the second preset
    /// (it counts as the first).
    pub open spec fn spec_next(self) -> Self {
        let presets = resolution_presets();
        let index = if presets.contains(self) {
            presets.index_of(self)
        } else {
            0
        };
        presets[(index + 1) % 4]
    }

    /// Returns the preset after `self`; see [`ResolutionSetting::spec_next`].
    pub fn next(self) -> (r: Self)
        ensures
            r == self.spec_next(),
    {
        let presets = Self::presets();
        let mut index: usize = 0;
        let mut i: usize = 0;
        let mut found = false;
        while i < presets.len() && !found
            invariant
                presets@ == resolution_presets(),
                i <= presets@.len(),
                index < presets@.len(),
                !found ==> index == 0,
                found ==> index < presets@.len() && presets@[index as int] == self,
                !found ==> forall|j: int| 0 <= j < i ==> presets@[j] != self,
            decreases presets@.len() - i,
        {
            if presets[i] == self {
                index = i;
                found = true;
            }
            i = i + 1;
        }
        proof {
            let p = resolution_presets();
            if found {
                assert(p[index as int] == self);
                assert(p.contains(self));
                p.index_of_first_ensures(self);
                assert(p.index_of(self) == index);
            } else {
                assert(!p.contains(self));
            }
        }
        presets[(index + 1) % presets.len()]
    }

    /// Text shown for the resolution: width, `x`, height.
    pub open spec fn spec_label(self) -> Seq<char> {
        decimal(self.width as nat).push('x') + decimal(self.height as nat)
    }

    /// Returns the text shown for the resolution, e.g. `1920x1080`.
    pub fn label(self) -> (r: String)
        ensures
            r@ == self.spec_label(),
    {
        let mut text = String::new();
        push_decimal(&mut text, self.width);
        push_char(&mut text, 'x');
        push_decimal(&mut text, self.height);
        proof {
            assert(text@ =~= self.spec_label());
        }
        text
    }
}

/// Swap-chain presentation mode.
#[derive(Debug, Clone, Copy, PartialEq, Eq, Structural)]
pub enum PresentModeChoice {
    AutoVsync,
    AutoNoVsync,
}

/// Graphics options.
#[derive(Debug, Clone, Copy, PartialEq, Eq, Structural)]
pub struct GraphicsSettings {
    pub window_mode: WindowModeSetting,
    pub resolution: ResolutionSetting,
    pub shadow_quality: ShadowQualitySetting,
    pub vsync: bool,
    pub fps_limit: FpsLimitSetting,
    pub render_distance: RenderDistanceSetting,
    pub show_grass: bool,
}

impl GraphicsSettings {
    /// The default graphics options: windowed 1280x720, low shadows, vsync,
    /// 60 FPS cap, medium render distance, grass shown.
    pub open spec fn spec_default() -> Self {
        GraphicsSettings {
            window_mode: WindowModeSetting::Windowed,
            resolution: ResolutionSetting { width: 1280, height: 720 },
            shadow_quality: ShadowQualitySetting::Low,
            vsync: true,
            fps_limit: FpsLimitSetting::Default60,
            render_distance: RenderDistanceSetting::Medium,
            show_grass: true,
        }
    }
}

impl Default for GraphicsSettings {
    fn default() -> (r: Self)
        ensures
            r == GraphicsSettings::spec_default(),
    {
        Self {
            window_mode: WindowModeSetting::Windowed,
            resolution: ResolutionSetting::default(),
            shadow_quality: ShadowQualitySetting::Low,
            vsync: true,
            fps_limit: FpsLimitSetting::Default60,
            render_distance: RenderDistanceSetting::Medium,
            show_grass: true,
        }
    }
}

/// Audio options.
#[derive(Debug, Clone, Copy, PartialEq, Eq, Structural)]
pub struct AudioSettings {
    pub ambient_enabled: bool,
    pub effects_enabled: bool,
}

impl Default for AudioSettings {
    fn default() -> (r: Self)
        ensures
            r == (AudioSettings { ambient_enabled: true, effects_enabled: true }),
    {
        Self { ambient_enabled: true, effects_enabled: true }
    }
}

/// All player settings.
#[derive(Debug, Clone, Copy, PartialEq, Eq, Structural)]
pub struct GameSettings {
    pub graphics: GraphicsSettings,
    pub audio: AudioSettings,
}

impl Default for GameSettings {
    fn default() -> (r: Self)
        ensures
            r == (GameSettings {
                graphics: GraphicsSettings::spec_default(),
                audio: AudioSettings { ambient_enabled: true, effects_enabled: true },
            }),
    {
        Self { graphics: GraphicsSettings::default(), audio: AudioSettings::default() }
    }
}

/// The presentation mode for the graphics options: no vsync when the frame
/// rate is unlimited, otherwise vsync exactly when it is switched on.
pub open spec fn spec_present_mode_for(graphics: GraphicsSettings) -> PresentModeChoice {
    if graphics.fps_limit == FpsLimitSetting::Unlimited {
        PresentModeChoice::AutoNoVsync
    } else if graphics.vsync {
        PresentModeChoice::AutoVsync
    } else {
        PresentModeChoice::AutoNoVsync
    }
}

/// Returns the presentation mode for the graphics options.
pub fn present_mode_for(graphics: &GraphicsSettings) -> (r: PresentModeChoice)
    ensures
        r == spec_present_mode_for(*graphics),
{
    if matches!(graphics.fps_limit, FpsLimitSetting::Unlimited) {
        PresentModeChoice::AutoNoVsync
    } else if graphics.vsync {
        PresentModeChoice::AutoVsync
    } else {
        PresentModeChoice::AutoNoVsync
    }
}

/// Cycling the window mode twice comes back to the start, and every mode is
/// reached.
pub proof fn lemma_window_mode_cycle(mode: WindowModeSetting)
    ensures
        mode.spec_next().spec_next() == mode,
        mode.spec_next() != mode,
{
}

/// Cycling the shadow quality four times comes back to the start, passing
/// through every level once.
pub proof fn lemma_shadow_quality_cycle(q: ShadowQualitySetting)
    ensures
        q.spec_next().spec_next().spec_next().spec_next() == q,
        q != q.spec_next() && q != q.spec_next().spec_next() && q != q.spec_next().spec_next().spec_next(),
{
}

/// Cycling the frame-rate cap three times comes back to the start, passing
/// through every cap once.
pub proof fn lemma_fps_limit_cycle(f: FpsLimitSetting)
    ensures
        f.spec_next().spec_next().spec_next() == f,
        f != f.spec_next() && f != f.spec_next().spec_next(),
{
}

/// Cycling the render distance four times comes back to the start, passing
/// through every distance once; larger settings see farther except when
/// wrapping from `Ultra` to `Low`.
pub proof fn lemma_render_distance_cycle(d: RenderDistanceSetting)
    ensures
        d.spec_next().spec_next().spec_next().spec_next() == d,
        d != d.spec_next() && d != d.spec_next().spec_next() && d != d.spec_next().spec_next().spec_next(),
        d != RenderDistanceSetting::Ultra ==> d.spec_max_distance() < d.spec_next().spec_max_distance(),
{
}

/// The next resolution is always a preset, and cycling from a preset four
/// times comes back to it.
pub proof fn lemma_resolution_cycle(r: ResolutionSetting)
    ensures
        resolution_presets().contains(r.spec_next()),
        resolution_presets().contains(r) ==> r.spec_next().spec_next().spec_next().spec_next() == r,
{
    let p = resolution_presets();
    assert(p[0] == ResolutionSetting { width: 1280, height: 720 });
    assert(p[1] == ResolutionSetting { width: 1600, height: 900 });
    assert(p[2] == ResolutionSetting { width: 1920, height: 1080 });
    assert(p[3] == ResolutionSetting { width: 2560, height: 1440 });
    assert(p.contains(r.spec_next()));
    if p.contains(r) {
        lemma_preset_index(p[0], 0);
        lemma_preset_index(p[1], 1);
        lemma_preset_index(p[2], 2);
        lemma_preset_index(p[3], 3);
    }
}

proof fn lemma_preset_index(r: ResolutionSetting, i: int)
    requires
        0 <= i < 4,
        resolution_presets()[i] == r,
    ensures
        resolution_presets().contains(r),
        resolution_presets().index_of(r) == i,
{
    let p = resolution_presets();
    assert(p.contains(r));
    p.index_of_first_ensures(r);
}

} // verus!
