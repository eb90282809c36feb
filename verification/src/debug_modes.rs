//! Debug toggles of the runtime scene (frame limit, shadow quality), the
//! dynamic light pool size, and small rules of the debug overlay.
use crate::settings::{PresentModeChoice, ShadowFilteringChoice, ShadowPlan, UpdateModeChoice};
use crate::text::{
    ascii_lower_chars, ascii_lower_seq, chars_equal, parse_usize, parse_usize_spec, str_chars,
    string_from_chars, trim, trim_chars,
};
use vstd::prelude::*;

verus! {

/// Frame limit cycled with a debug key.
#[derive(Debug, Clone, Copy, PartialEq, Eq, Structural)]
pub enum FrameLimitMode {
    Default,
    MonitorLimit,
    Disabled,
}

/// What a frame limit sets: the window's present mode and the event
/// loop's pacing, focused and unfocused alike.
#[derive(Debug, Clone, Copy, PartialEq, Eq, Structural)]
pub struct FrameLimitPlan {
    pub present_mode: PresentModeChoice,
    pub update_mode: UpdateModeChoice,
}

impl FrameLimitMode {
    /// The cycle: 60 FPS, then the monitor's rate, then no limit, then back.
    pub open spec fn spec_next(self) -> Self {
        match self {
            Self::Default => Self::MonitorLimit,
            Self::MonitorLimit => Self::Disabled,
            Self::Disabled => Self::Default,
        }
    }

    pub fn next(self) -> (r: Self)
        ensures
            r == self.spec_next(),
    {
        match self {
            Self::Default => Self::MonitorLimit,
            Self::MonitorLimit => Self::Disabled,
            Self::Disabled => Self::Default,
        }
    }

    pub open spec fn spec_label(self) -> Seq<char> {
        match self {
            Self::Default => "60 FPS"@,
            Self::MonitorLimit => "VSync (monitor)"@,
            Self::Disabled => "Desativado"@,
        }
    }

    /// The text shown for the mode.
    pub fn label(self) -> (r: &'static str)
        ensures
            r@ == self.spec_label(),
    {
        match self {
            Self::Default => "60 FPS",
            Self::MonitorLimit => "VSync (monitor)",
            Self::Disabled => "Desativado",
        }
    }

    pub fn to_display_string(self) -> (r: String)
        ensures
            r@ == self.spec_label(),
    {
        String::from_str(self.label())
    }

    /// 60 FPS: vsync with a reactive 60 Hz loop; monitor: vsync with a
    /// continuous loop; disabled: no vsync, continuous loop.
    pub open spec fn spec_plan(self) -> FrameLimitPlan {
        match self {
            Self::Default => FrameLimitPlan {
                present_mode: PresentModeChoice::AutoVsync,
                update_mode: UpdateModeChoice::Reactive { fps: 60 },
            },
            Self::MonitorLimit => FrameLimitPlan {
                present_mode: PresentModeChoice::AutoVsync,
                update_mode: UpdateModeChoice::Continuous,
            },
            Self::Disabled => FrameLimitPlan {
                present_mode: PresentModeChoice::AutoNoVsync,
                update_mode: UpdateModeChoice::Continuous,
            },
        }
    }

    pub fn plan(self) -> (r: FrameLimitPlan)
        ensures
            r == self.spec_plan(),
    {
        match self {
            Self::Default => FrameLimitPlan {
                present_mode: PresentModeChoice::AutoVsync,
                update_mode: UpdateModeChoice::Reactive { fps: 60 },
            },
            Self::MonitorLimit => FrameLimitPlan {
                present_mode: PresentModeChoice::AutoVsync,
                update_mode: UpdateModeChoice::Continuous,
            },
            Self::Disabled => FrameLimitPlan {
                present_mode: PresentModeChoice::AutoNoVsync,
                update_mode: UpdateModeChoice::Continuous,
            },
        }
    }
}

/// The debug frame limiter's state.
#[derive(Debug, Clone, Copy, PartialEq, Eq, Structural)]
pub struct DebugFrameLimiter {
    pub mode: FrameLimitMode,
}

impl Default for DebugFrameLimiter {
    fn default() -> (r: Self)
        ensures
            r.mode == FrameLimitMode::Default,
    {
        Self { mode: FrameLimitMode::Default }
    }
}

/// Shadow quality cycled with a debug key.
#[derive(Debug, Clone, Copy, PartialEq, Eq, Structural)]
pub enum ShadowQualityMode {
    Low,
    Medium,
    High,
    Off,
}

impl ShadowQualityMode {
    /// The cycle: low, medium, high, off, then low again.
    pub open spec fn spec_next(self) -> Self {
        match self {
            Self::Low => Self::Medium,
            Self::Medium => Self::High,
            Self::High => Self::Off,
            Self::Off => Self::Low,
        }
    }

    pub fn next(self) -> (r: Self)
        ensures
            r == self.spec_next(),
    {
        match self {
            Self::Low => Self::Medium,
            Self::Medium => Self::High,
            Self::High => Self::Off,
            Self::Off => Self::Low,
        }
    }

    pub open spec fn spec_label(self) -> Seq<char> {
        match self {
            Self::Low => "Baixa (Hardware2x2, 1 cascade, 1024)"@,
            Self::Medium => "Média (Gaussian, 2 cascades, 2048)"@,
            Self::High => "Alta (Gaussian, 3 cascades, 4096)"@,
            Self::Off => "Desativada"@,
        }
    }

    /// The text shown for the mode.
    pub fn label(self) -> (r: &'static str)
        ensures
            r@ == self.spec_label(),
    {
        match self {
            Self::Low => "Baixa (Hardware2x2, 1 cascade, 1024)",
            Self::Medium => "Média (Gaussian, 2 cascades, 2048)",
            Self::High => "Alta (Gaussian, 3 cascades, 4096)",
            Self::Off => "Desativada",
        }
    }

    pub fn to_display_string(self) -> (r: String)
        ensures
            r@ == self.spec_label(),
    {
        String::from_str(self.label())
    }

    /// What the mode sets on the sun and the cameras: shadows off, or a
    /// map of 1024, 2048 or 4096 texels with 1, 2 or 3 cascades whose first
    /// ends at 8000, 1200 or 800 units, filtered by 2x2 hardware sampling at
    /// low quality and by a Gaussian filter above.
    pub open spec fn spec_plan(self) -> ShadowPlan {
        match self {
            Self::Off => ShadowPlan {
                shadows_enabled: false,
                shadow_map_size: None,
                num_cascades: None,
                first_cascade_far_bound: None,
                filtering: None,
            },
            Self::Low => ShadowPlan {
                shadows_enabled: true,
                shadow_map_size: Some(1024),
                num_cascades: Some(1),
                first_cascade_far_bound: Some(8000),
                filtering: Some(ShadowFilteringChoice::Hardware2x2),
            },
            Self::Medium => ShadowPlan {
                shadows_enabled: true,
                shadow_map_size: Some(2048),
                num_cascades: Some(2),
                first_cascade_far_bound: Some(1200),
                filtering: Some(ShadowFilteringChoice::Gaussian),
            },
            Self::High => ShadowPlan {
                shadows_enabled: true,
                shadow_map_size: Some(4096),
                num_cascades: Some(3),
                first_cascade_far_bound: Some(800),
                filtering: Some(ShadowFilteringChoice::Gaussian),
            },
        }
    }

    pub fn plan(self) -> (r: ShadowPlan)
        ensures
            r == self.spec_plan(),
    {
        match self {
            Self::Off => ShadowPlan {
                shadows_enabled: false,
                shadow_map_size: None,
                num_cascades: None,
                first_cascade_far_bound: None,
                filtering: None,
            },
            Self::Low => ShadowPlan {
                shadows_enabled: true,
                shadow_map_size: Some(1024),
                num_cascades: Some(1),
                first_cascade_far_bound: Some(8000),
                filtering: Some(ShadowFilteringChoice::Hardware2x2),
            },
            Self::Medium => ShadowPlan {
                shadows_enabled: true,
                shadow_map_size: Some(2048),
                num_cascades: Some(2),
                first_cascade_far_bound: Some(1200),
                filtering: Some(ShadowFilteringChoice::Gaussian),
            },
            Self::High => ShadowPlan {
                shadows_enabled: true,
                shadow_map_size: Some(4096),
                num_cascades: Some(3),
                first_cascade_far_bound: Some(800),
                filtering: Some(ShadowFilteringChoice::Gaussian),
            },
        }
    }
}

/// The debug shadow toggle's state.
#[derive(Debug, Clone, Copy, PartialEq, Eq, Structural)]
pub struct DebugShadowQuality {
    pub mode: ShadowQualityMode,
}

impl Default for DebugShadowQuality {
    fn default() -> (r: Self)
        ensures
            r.mode == ShadowQualityMode::Low,
    {
        Self { mode: ShadowQualityMode::Low }
    }
}

/// Cycling the frame limit three times comes back to where it started,
/// and the three modes in between are all different.
pub proof fn lemma_frame_limit_cycle(mode: FrameLimitMode)
    ensures
        mode.spec_next().spec_next().spec_next() == mode,
        mode.spec_next() != mode,
        mode.spec_next().spec_next() != mode,
{
}

/// Cycling the shadow quality four times comes back to where it started,
/// passing through every mode once.
pub proof fn lemma_shadow_quality_cycle(mode: ShadowQualityMode)
    ensures
        mode.spec_next().spec_next().spec_next().spec_next() == mode,
        mode.spec_next() != mode,
        mode.spec_next().spec_next() != mode,
        mode.spec_next().spec_next().spec_next() != mode,
{
}

/// Size of the dynamic light pool when nothing else is configured.
pub const DEFAULT_MAX_DYNAMIC_POINT_LIGHTS: usize = 12;

/// Largest dynamic light pool.
pub const MAX_DYNAMIC_POINT_LIGHTS: usize = 64;

/// The size of the dynamic light pool from its setting: the trimmed value
/// read as a decimal number, capped at 64; the default of 12 where it is
/// missing or is no number.
pub open spec fn spec_light_pool_size(raw: Option<Seq<char>>) -> usize {
    match raw {
        Some(text) => match parse_usize_spec(trim(text)) {
            Some(value) => if value > 64 {
                64
            } else {
                value
            },
            None => 12,
        },
        None => 12,
    }
}

/// The size of the dynamic light pool from its setting; see [`spec_light_pool_size`].
pub fn light_pool_size(raw: Option<&str>) -> (r: usize)
    ensures
        r == spec_light_pool_size(
            match raw {
                Some(text) => Some(text@),
                None => None,
            },
        ),
        r <= MAX_DYNAMIC_POINT_LIGHTS,
{
    match raw {
        Some(text) => {
            let trimmed = trim_chars(&str_chars(text));
            match parse_usize(&trimmed) {
                Some(value) => if value > MAX_DYNAMIC_POINT_LIGHTS {
                    MAX_DYNAMIC_POINT_LIGHTS
                } else {
                    value
                },
                None => DEFAULT_MAX_DYNAMIC_POINT_LIGHTS,
            }
        },
        None => DEFAULT_MAX_DYNAMIC_POINT_LIGHTS,
    }
}

/// How a particle emitter's sprites are blended.
#[derive(Debug, Clone, Copy, PartialEq, Eq, Structural, Hash)]
pub enum ParticleBlendMode {
    Alpha,
    Additive,
}

/// The blend mode named by an emitter definition: additive for `add` or
/// `additive` (trimmed, ignoring ASCII case), alpha blending otherwise.
pub open spec fn spec_parse_particle_blend_mode(raw: Seq<char>) -> ParticleBlendMode {
    let name = ascii_lower_seq(trim(raw));
    if name == "add"@ || name == "additive"@ {
        ParticleBlendMode::Additive
    } else {
        ParticleBlendMode::Alpha
    }
}

/// Reads a particle blend mode; see [`spec_parse_particle_blend_mode`].
pub fn parse_particle_blend_mode(raw_mode: &str) -> (r: ParticleBlendMode)
    ensures
        r == spec_parse_particle_blend_mode(raw_mode@),
{
    let name = ascii_lower_chars(&trim_chars(&str_chars(raw_mode)));
    let add: [char; 3] = ['a', 'd', 'd'];
    let additive: [char; 8] = ['a', 'd', 'd', 'i', 't', 'i', 'v', 'e'];
    proof {
        reveal_strlit("add");
        reveal_strlit("additive");
        assert(add@ =~= "add"@);
        assert(additive@ =~= "additive"@);
    }
    if chars_equal(&name, &add) || chars_equal(&name, &additive) {
        ParticleBlendMode::Additive
    } else {
        ParticleBlendMode::Alpha
    }
}

/// A value shown in the debug overlay: trimmed, or `n/a` where nothing is
/// left.
pub open spec fn spec_sanitize_info_text(value: Seq<char>) -> Seq<char> {
    if trim(value).len() == 0 {
        "n/a"@
    } else {
        trim(value)
    }
}

/// Cleans a line of adapter text for the HUD; see [`spec_sanitize_info_text`].
pub fn sanitize_info_text(value: &str) -> (r: String)
    ensures
        r@ == spec_sanitize_info_text(value@),
{
    let trimmed = trim_chars(&str_chars(value));
    if trimmed.len() == 0 {
        String::from_str("n/a")
    } else {
        string_from_chars(&trimmed)
    }
}

/// How a mesh's vertices form primitives.
#[derive(Debug, Clone, Copy, PartialEq, Eq, Structural)]
pub enum MeshTopology {
    TriangleList,
    TriangleStrip,
    Other,
}

/// Triangles drawn for a mesh with `primitive_count` indices (or vertices,
/// without an index buffer): one per three in a list, all but two in a
/// strip, none for other topologies.
pub open spec fn spec_triangles_for_mesh(primitive_count: usize, topology: MeshTopology) -> u64 {
    match topology {
        MeshTopology::TriangleList => (primitive_count / 3) as u64,
        MeshTopology::TriangleStrip => if primitive_count >= 2 {
            (primitive_count - 2) as u64
        } else {
            0
        },
        MeshTopology::Other => 0,
    }
}

/// The triangle count of a mesh; see [`spec_triangles_for_mesh`].
pub fn triangles_for_mesh(index_count: Option<usize>, vertex_count: usize, topology: MeshTopology) -> (r:
    u64)
    ensures
        r == spec_triangles_for_mesh(
            match index_count {
                Some(count) => count,
                None => vertex_count,
            },
            topology,
        ),
{
    let primitive_count = match index_count {
        Some(count) => count,
        None => vertex_count,
    };
    match topology {
        MeshTopology::TriangleList => (primitive_count / 3) as u64,
        MeshTopology::TriangleStrip => primitive_count.saturating_sub(2) as u64,
        MeshTopology::Other => 0,
    }
}

/// Whether two names are equal ignoring ASCII case.
pub open spec fn eq_ignore_ascii_case(a: Seq<char>, b: Seq<char>) -> bool {
    ascii_lower_seq(a) == ascii_lower_seq(b)
}

/// Whether the running scene is the classic login world `world_56`: the
/// requested world name or the loaded world's name is it, ignoring ASCII
/// case.
pub open spec fn spec_is_world_56(world_name: Seq<char>, loaded_world_name: Option<Seq<char>>) -> bool {
    eq_ignore_ascii_case(world_name, "world_56"@) || match loaded_world_name {
        Some(name) => eq_ignore_ascii_case(name, "world_56"@),
        None => false,
    }
}

fn is_world_56_name(name: &str) -> (r: bool)
    ensures
        r == eq_ignore_ascii_case(name@, "world_56"@),
{
    let lowered = ascii_lower_chars(&str_chars(name));
    let target: [char; 8] = ['w', 'o', 'r', 'l', 'd', '_', '5', '6'];
    proof {
        reveal_strlit("world_56");
        assert(target@ =~= "world_56"@);
        assert(ascii_lower_seq("world_56"@) =~= "world_56"@);
    }
    chars_equal(&lowered, &target)
}

/// Whether world 56 is shown; see [`spec_is_world_56`].
pub fn is_world_56(world_name: &str, loaded_world_name: Option<&str>) -> (r: bool)
    ensures
        r == spec_is_world_56(
            world_name@,
            match loaded_world_name {
                Some(name) => Some(name@),
                None => None,
            },
        ),
{
    if is_world_56_name(world_name) {
        return true;
    }
    match loaded_world_name {
        Some(name) => is_world_56_name(name),
        None => false,
    }
}


/// The graphics driver line of the debug overlay, from the sanitized
/// driver name and driver details: the name alone where there are no
/// details (`n/a`), else both separated by a space.
pub open spec fn spec_graphics_version_text(driver: Seq<char>, driver_info: Seq<char>) -> Seq<char> {
    let info = spec_sanitize_info_text(driver_info);
    let name = spec_sanitize_info_text(driver);
    if info == "n/a"@ {
        name
    } else {
        name + " "@ + info
    }
}

/// The graphics driver line for the HUD; see [`spec_graphics_version_text`].
pub fn graphics_version_text(driver: &str, driver_info: &str) -> (r: String)
    ensures
        r@ == spec_graphics_version_text(driver@, driver_info@),
{
    let name = sanitize_info_text(driver);
    let info = sanitize_info_text(driver_info);
    let na: [char; 3] = ['n', '/', 'a'];
    proof {
        reveal_strlit("n/a");
        assert(na@ =~= "n/a"@);
    }
    let info_chars = str_chars(info.as_str());
    if chars_equal(&info_chars, &na) {
        name
    } else {
        let mut text = name;
        crate::text::push_str(&mut text, " ");
        crate::text::push_str(&mut text, info.as_str());
        text
    }
}

} // verus!
