//! Per-frame drawing decisions of the viewer: what each render pass uses, which clusters are
//! drawn, and the debug overlay's bars, status lights and text.
use vstd::prelude::*;

use crate::game::{GameSettings, GpPerfMetric0, GpPerfMetric1, PerformanceMetrics};
use crate::map_data::ClusterGeometry;
use crate::vpk::{decimal, spec_decimal};

verus! {

/// The shader a render pass of the world uses.
#[derive(Clone, Copy, Debug, PartialEq, Eq, Structural)]
pub enum PassShader {
    Lightmapped,
    LightmappedBaaa,
    UnlitGeneric,
    SelfIllum,
}

/// Number of render passes of the world.
pub const WORLD_PASS_COUNT: usize = 6;

/// How a render pass of the world is drawn.
#[derive(Clone, Copy, Debug, PartialEq, Eq, Structural)]
pub struct PassPlan {
    pub shader: PassShader,
    /// Alpha blending on, depth writes off.
    pub blend: bool,
}

/// The plan of render pass `pass`: passes 0 to 3 are lightmapped, the odd ones with the base
/// texture's alpha, and 2 and 3 blended; pass 4 is unlit and pass 5 self-illuminated.
pub open spec fn spec_pass_plan(pass: int) -> PassPlan {
    PassPlan {
        shader: if pass < 4 {
            if pass % 2 == 0 { PassShader::Lightmapped } else { PassShader::LightmappedBaaa }
        } else if pass == 4 {
            PassShader::UnlitGeneric
        } else {
            PassShader::SelfIllum
        },
        blend: pass < 4 && (pass / 2) % 2 == 1,
    }
}

/// The plan of render pass `pass`.
pub fn pass_plan(pass: usize) -> (r: PassPlan)
    requires
        pass < WORLD_PASS_COUNT,
    ensures
        r == spec_pass_plan(pass as int),
{
    let shader = if pass < 4 {
        if pass % 2 == 0 { PassShader::Lightmapped } else { PassShader::LightmappedBaaa }
    } else if pass == 4 {
        PassShader::UnlitGeneric
    } else {
        PassShader::SelfIllum
    };
    PassPlan { shader, blend: pass < 4 && (pass / 2) % 2 == 1 }
}

/// What drawing one cluster in one pass takes.
#[derive(Clone, Copy, Debug, PartialEq, Eq, Structural)]
pub enum ClusterDraw {
    /// The cluster has byte code for the pass but no lightmap: draw nothing.
    Skip,
    /// Run the cluster's byte code for the pass, binding its lightmap first when there is code.
    Draw { bind_lightmap: bool },
}

/// Decides how to draw a cluster with geometry `g` in pass `pass`, given whether it has a
/// lightmap.
pub fn cluster_draw(g: &ClusterGeometry, pass: usize, has_lightmap: bool) -> (r: ClusterDraw)
    requires
        pass < crate::map_data::PASS_COUNT,
    ensures
        ({
            let range = g.byte_code_index_ranges[pass as int];
            if range[0] != range[1] {
                if has_lightmap {
                    r == ClusterDraw::Draw { bind_lightmap: true }
                } else {
                    r == ClusterDraw::Skip
                }
            } else {
                r == ClusterDraw::Draw { bind_lightmap: false }
            }
        }),
{
    let range = g.byte_code_index_ranges[pass];
    if range[0] != range[1] {
        if has_lightmap {
            ClusterDraw::Draw { bind_lightmap: true }
        } else {
            ClusterDraw::Skip
        }
    } else {
        ClusterDraw::Draw { bind_lightmap: false }
    }
}

/// Ticks spent in each part of the last frame.
#[derive(Clone, Copy, Debug, PartialEq, Eq, Structural)]
pub struct FrameTimers {
    pub game_logic: u32,
    pub main_draw: u32,
    pub copy_to_texture: u32,
    pub debug_draw: u32,
    pub draw_done: u32,
    pub idle: u32,
}

/// The edges of the frame time bar: 0, then the running totals of the six parts.
pub open spec fn spec_bar_edges(t: FrameTimers) -> Seq<int> {
    let x1 = t.game_logic as int;
    let x2 = x1 + t.main_draw;
    let x3 = x2 + t.copy_to_texture;
    let x4 = x3 + t.debug_draw;
    let x5 = x4 + t.draw_done;
    let x6 = x5 + t.idle;
    seq![0, x1, x2, x3, x4, x5, x6]
}

impl FrameTimers {
    /// The edges of the frame time bar, in ticks: 0, then the running totals of the six parts.
    /// The caller scales them to the screen.
    pub fn bar_edges(&self) -> (r: [u32; 7])
        requires
            self.game_logic + self.main_draw + self.copy_to_texture + self.debug_draw
                + self.draw_done + self.idle <= u32::MAX,
        ensures
            r@.map_values(|x: u32| x as int) == spec_bar_edges(*self),
    {
        let x1 = self.game_logic;
        let x2 = x1 + self.main_draw;
        let x3 = x2 + self.copy_to_texture;
        let x4 = x3 + self.debug_draw;
        let x5 = x4 + self.draw_done;
        let x6 = x5 + self.idle;
        let r = [0, x1, x2, x3, x4, x5, x6];
        assert(r@.map_values(|x: u32| x as int) =~= spec_bar_edges(*self));
        r
    }
}

/// The overlay's three status lights: whether the camera is in a cluster, and the two bits of
/// the lightmap style (high, then low).
pub fn status_lights(view_cluster: i16, lightmap_style: usize) -> (r: [bool; 3])
    ensures
        r[0] == (view_cluster != -1),
        r[1] == (lightmap_style % 4 >= 2),
        r[2] == (lightmap_style % 2 == 1),
{
    [view_cluster != -1, lightmap_style % 4 >= 2, lightmap_style % 2 == 1]
}

/// The marker in front of an overlay entry: an arrow for the selected one.
pub open spec fn spec_marker(selected: bool) -> Seq<char> {
    if selected { "->"@ } else { "  "@ }
}

/// A flag as text.
pub open spec fn spec_bool_text(b: bool) -> Seq<char> {
    if b { "true"@ } else { "false"@ }
}

/// One line of the overlay's settings: marker, label, value.
pub open spec fn spec_setting_line(selected: bool, label: Seq<char>, value: Seq<char>) -> Seq<char> {
    spec_marker(selected) + " "@ + label + ": "@ + value + "\n"@
}

/// One line of the overlay's counters: label and value in decimal.
pub open spec fn spec_counter_line(label: Seq<char>, value: u32) -> Seq<char> {
    label + ": "@ + spec_decimal(value as nat, 0) + "\n"@
}

/// The overlay text below its first line: the five settings, the selected one marked, and the
/// seven counters.
pub open spec fn spec_overlay_text(s: GameSettings, m: PerformanceMetrics) -> Seq<char> {
    spec_setting_line(s.ui_item == 0, "MSAA"@, spec_bool_text(s.msaa))
        + spec_setting_line(s.ui_item == 1, "Copy filter"@, spec_bool_text(s.copy_filter))
        + spec_setting_line(s.ui_item == 2, "Lightmap style"@, spec_decimal(s.lightmap_style as nat, 0))
        + spec_setting_line(s.ui_item == 3, "GP perf metric 0"@, s.gp_perf_metric0.spec_name())
        + spec_setting_line(s.ui_item == 4, "GP perf metric 1"@, s.gp_perf_metric1.spec_name())
        + spec_counter_line("gp_a"@, m.gp_a)
        + spec_counter_line("gp_b"@, m.gp_b)
        + spec_counter_line("gp_c"@, m.gp_c)
        + spec_counter_line("gp_d"@, m.gp_d)
        + spec_counter_line("vcache_metric_check"@, m.vcache_metric_check)
        + spec_counter_line("vcache_metric_miss"@, m.vcache_metric_miss)
        + spec_counter_line("vcache_metric_stall"@, m.vcache_metric_stall)
}

/// Appends the characters of `s` to `out`.
fn push_text(out: &mut String, s: &str)
    ensures
        final(out)@ == old(out)@ + s@,
{
    let n = s.unicode_len();
    let mut i: usize = 0;
    while i < n
        invariant
            n == s@.len(),
            i <= n,
            out@ == old(out)@ + s@.subrange(0, i as int),
        decreases n - i,
    {
        crate::canonical_path::string_push(out, s.get_char(i));
        assert(s@.subrange(0, i + 1) =~= s@.subrange(0, i as int).push(s@[i as int]));
        i = i + 1;
    }
    assert(s@.subrange(0, n as int) =~= s@);
}

/// Appends one settings line.
fn push_setting_line(out: &mut String, selected: bool, label: &str, value: &str)
    ensures
        final(out)@ == old(out)@ + spec_setting_line(selected, label@, value@),
{
    push_text(out, if selected { "->" } else { "  " });
    push_text(out, " ");
    push_text(out, label);
    push_text(out, ": ");
    push_text(out, value);
    push_text(out, "\n");
    assert(out@ =~= old(out)@ + spec_setting_line(selected, label@, value@));
}

/// Appends one counter line.
fn push_counter_line(out: &mut String, label: &str, value: u32)
    ensures
        final(out)@ == old(out)@ + spec_counter_line(label@, value),
{
    push_text(out, label);
    push_text(out, ": ");
    let digits = decimal(value, 0);
    push_text(out, digits.as_str());
    push_text(out, "\n");
    assert(out@ =~= old(out)@ + spec_counter_line(label@, value));
}

/// A flag as text.
fn bool_text(b: bool) -> (r: &'static str)
    ensures
        r@ == spec_bool_text(b),
{
    if b { "true" } else { "false" }
}

/// The overlay text below its first line (which shows the camera).
pub fn overlay_text(s: &GameSettings, m: &PerformanceMetrics) -> (r: String)
    requires
        s.wf(),
    ensures
        r@ == spec_overlay_text(*s, *m),
{
    let mut out = String::new();
    push_setting_line(&mut out, s.ui_item == 0, "MSAA", bool_text(s.msaa));
    push_setting_line(&mut out, s.ui_item == 1, "Copy filter", bool_text(s.copy_filter));
    let style = decimal(s.lightmap_style as u32, 0);
    push_setting_line(&mut out, s.ui_item == 2, "Lightmap style", style.as_str());
    push_setting_line(&mut out, s.ui_item == 3, "GP perf metric 0", s.gp_perf_metric0.name());
    push_setting_line(&mut out, s.ui_item == 4, "GP perf metric 1", s.gp_perf_metric1.name());
    push_counter_line(&mut out, "gp_a", m.gp_a);
    push_counter_line(&mut out, "gp_b", m.gp_b);
    push_counter_line(&mut out, "gp_c", m.gp_c);
    push_counter_line(&mut out, "gp_d", m.gp_d);
    push_counter_line(&mut out, "vcache_metric_check", m.vcache_metric_check);
    push_counter_line(&mut out, "vcache_metric_miss", m.vcache_metric_miss);
    push_counter_line(&mut out, "vcache_metric_stall", m.vcache_metric_stall);
    assert(out@ =~= spec_overlay_text(*s, *m));
    out
}


/// A corner of a skybox face: its position (a cube of side 20 around the camera) and its texture
/// coordinate (0 or 1).
#[derive(Clone, Copy, Debug, PartialEq, Eq, Structural)]
pub struct SkyVertex {
    pub x: i8,
    pub y: i8,
    pub z: i8,
    pub s: u8,
    pub t: u8,
}

/// A face of the skybox: which of the five skybox textures it shows and its four corners.
#[derive(Clone, Copy, Debug)]
pub struct SkyboxFace {
    pub texture: usize,
    pub vertices: [SkyVertex; 4],
}

/// The skybox: the +X, -X, +Y, -Y and +Z faces (there is no floor), each with its texture, drawn
/// as quads in this order.
pub open spec fn spec_skybox() -> Seq<SkyboxFace> {
    seq![
        SkyboxFace { texture: 0, vertices: [SkyVertex { x: 10i8, y: 10i8, z: 10i8, s: 0, t: 0 }, SkyVertex { x: 10i8, y: (-10i8) as i8, z: 10i8, s: 1, t: 0 }, SkyVertex { x: 10i8, y: (-10i8) as i8, z: (-10i8) as i8, s: 1, t: 1 }, SkyVertex { x: 10i8, y: 10i8, z: (-10i8) as i8, s: 0, t: 1 }] },
        SkyboxFace { texture: 1, vertices: [SkyVertex { x: (-10i8) as i8, y: (-10i8) as i8, z: 10i8, s: 0, t: 0 }, SkyVertex { x: (-10i8) as i8, y: 10i8, z: 10i8, s: 1, t: 0 }, SkyVertex { x: (-10i8) as i8, y: 10i8, z: (-10i8) as i8, s: 1, t: 1 }, SkyVertex { x: (-10i8) as i8, y: (-10i8) as i8, z: (-10i8) as i8, s: 0, t: 1 }] },
        SkyboxFace { texture: 2, vertices: [SkyVertex { x: (-10i8) as i8, y: 10i8, z: 10i8, s: 0, t: 0 }, SkyVertex { x: 10i8, y: 10i8, z: 10i8, s: 1, t: 0 }, SkyVertex { x: 10i8, y: 10i8, z: (-10i8) as i8, s: 1, t: 1 }, SkyVertex { x: (-10i8) as i8, y: 10i8, z: (-10i8) as i8, s: 0, t: 1 }] },
        SkyboxFace { texture: 3, vertices: [SkyVertex { x: 10i8, y: (-10i8) as i8, z: 10i8, s: 0, t: 0 }, SkyVertex { x: (-10i8) as i8, y: (-10i8) as i8, z: 10i8, s: 1, t: 0 }, SkyVertex { x: (-10i8) as i8, y: (-10i8) as i8, z: (-10i8) as i8, s: 1, t: 1 }, SkyVertex { x: 10i8, y: (-10i8) as i8, z: (-10i8) as i8, s: 0, t: 1 }] },
        SkyboxFace { texture: 4, vertices: [SkyVertex { x: (-10i8) as i8, y: 10i8, z: 10i8, s: 0, t: 0 }, SkyVertex { x: (-10i8) as i8, y: (-10i8) as i8, z: 10i8, s: 1, t: 0 }, SkyVertex { x: 10i8, y: (-10i8) as i8, z: 10i8, s: 1, t: 1 }, SkyVertex { x: 10i8, y: 10i8, z: 10i8, s: 0, t: 1 }] }
    ]
}

/// The skybox faces in drawing order.
pub fn skybox() -> (r: Vec<SkyboxFace>)
    ensures
        r@ == spec_skybox(),
{
    let mut v: Vec<SkyboxFace> = Vec::new();
    v.push(SkyboxFace { texture: 0, vertices: [SkyVertex { x: 10, y: 10, z: 10, s: 0, t: 0 }, SkyVertex { x: 10, y: -10, z: 10, s: 1, t: 0 }, SkyVertex { x: 10, y: -10, z: -10, s: 1, t: 1 }, SkyVertex { x: 10, y: 10, z: -10, s: 0, t: 1 }] });
    v.push(SkyboxFace { texture: 1, vertices: [SkyVertex { x: -10, y: -10, z: 10, s: 0, t: 0 }, SkyVertex { x: -10, y: 10, z: 10, s: 1, t: 0 }, SkyVertex { x: -10, y: 10, z: -10, s: 1, t: 1 }, SkyVertex { x: -10, y: -10, z: -10, s: 0, t: 1 }] });
    v.push(SkyboxFace { texture: 2, vertices: [SkyVertex { x: -10, y: 10, z: 10, s: 0, t: 0 }, SkyVertex { x: 10, y: 10, z: 10, s: 1, t: 0 }, SkyVertex { x: 10, y: 10, z: -10, s: 1, t: 1 }, SkyVertex { x: -10, y: 10, z: -10, s: 0, t: 1 }] });
    v.push(SkyboxFace { texture: 3, vertices: [SkyVertex { x: 10, y: -10, z: 10, s: 0, t: 0 }, SkyVertex { x: -10, y: -10, z: 10, s: 1, t: 0 }, SkyVertex { x: -10, y: -10, z: -10, s: 1, t: 1 }, SkyVertex { x: 10, y: -10, z: -10, s: 0, t: 1 }] });
    v.push(SkyboxFace { texture: 4, vertices: [SkyVertex { x: -10, y: 10, z: 10, s: 0, t: 0 }, SkyVertex { x: -10, y: -10, z: 10, s: 1, t: 0 }, SkyVertex { x: 10, y: -10, z: 10, s: 1, t: 1 }, SkyVertex { x: 10, y: 10, z: 10, s: 0, t: 1 }] });
    assert(v@ =~= spec_skybox());
    v
}

/// The scissor box `(x, y, width, height)` and its vertical offset for a full frame or for the
/// top or bottom half of an antialiased one.
pub fn scissor(half: Option<bool>) -> (r: (u32, u32, u32, u32, u32))
    ensures
        half is None ==> r == (0u32, 0u32, 640u32, 480u32, 0u32),
        half == Some(false) ==> r == (0u32, 0u32, 640u32, 240u32, 0u32),
        half == Some(true) ==> r == (0u32, 240u32, 640u32, 240u32, 240u32),
{
    match half {
        None => (0, 0, 640, 480, 0),
        Some(false) => (0, 0, 640, 240, 0),
        Some(true) => (0, 240, 640, 240, 240),
    }
}

/// Embedded frame buffer pixel formats.
pub const GX_PF_RGB8_Z24: u8 = 0;
pub const GX_PF_RGB565_Z16: u8 = 2;

/// The pixel format of the main draw: antialiasing needs the 16-bit format.
pub fn pixel_format(msaa: bool) -> (r: u8)
    ensures
        r == if msaa { GX_PF_RGB565_Z16 } else { GX_PF_RGB8_Z24 },
{
    if msaa { GX_PF_RGB565_Z16 } else { GX_PF_RGB8_Z24 }
}

/// Whether field rendering's line doubling is on: when the display is twice as high as the
/// external frame buffer.
pub fn field_mode_enabled(vi_height: u16, xfb_height: u16) -> (r: bool)
    ensures
        r == (vi_height == 2 * xfb_height),
{
    vi_height as u32 == 2 * xfb_height as u32
}

/// Size of a texture cache region.
pub const TEX_CACHE_REGION_SIZE: u32 = 128 * 1024;

/// The even and odd texture memory bases of the cache region reserved for texture map `i`: a
/// quarter of each bank, the odd bank starting at 512 KiB.
pub fn tex_cache_region(i: u32) -> (r: (u32, u32))
    requires
        i < 4,
    ensures
        r == ((TEX_CACHE_REGION_SIZE * i) as u32, (512 * 1024 + TEX_CACHE_REGION_SIZE * i) as u32),
{
    (TEX_CACHE_REGION_SIZE * i, 512 * 1024 + TEX_CACHE_REGION_SIZE * i)
}

/// The four texture cache regions do not overlap: each starts a whole region after the one
/// before it in both banks, and the even bank ends where the odd one starts.
pub proof fn lemma_tex_cache_regions_disjoint(i: u32, j: u32)
    requires
        i < j < 4,
    ensures
        TEX_CACHE_REGION_SIZE * i + TEX_CACHE_REGION_SIZE <= TEX_CACHE_REGION_SIZE * j,
        512 * 1024 + TEX_CACHE_REGION_SIZE * i + TEX_CACHE_REGION_SIZE <= 512 * 1024
            + TEX_CACHE_REGION_SIZE * j,
        TEX_CACHE_REGION_SIZE * j + TEX_CACHE_REGION_SIZE <= 512 * 1024,
{
}

/// The shader that displacements of kind `mode` use: plain lightmapped, or blending two
/// textures by vertex alpha.
#[derive(Clone, Copy, Debug, PartialEq, Eq, Structural)]
pub enum DisplacementShader {
    Lightmapped,
    WorldVertexTransition,
}

/// The shader of displacement kind `mode`; there are two kinds.
pub fn displacement_shader(mode: usize) -> (r: DisplacementShader)
    requires
        mode < 2,
    ensures
        r == if mode == 0 { DisplacementShader::Lightmapped } else { DisplacementShader::WorldVertexTransition },
{
    if mode == 0 { DisplacementShader::Lightmapped } else { DisplacementShader::WorldVertexTransition }
}

/// Whether the shader has to be loaded again before drawing kind `mode`: only when the kind
/// changes.
pub fn shader_changes(prev_mode: Option<usize>, mode: usize) -> (r: bool)
    ensures
        r == (prev_mode != Some(mode)),
{
    match prev_mode {
        Some(p) => p != mode,
        None => true,
    }
}


/// A stopwatch on the free-running 32-bit tick counter, which wraps.
#[derive(Clone, Copy, Debug, PartialEq, Eq, Structural)]
pub struct Timer {
    pub start: u32,
}

impl Timer {
    /// Starts timing at tick `now`.
    pub fn start(now: u32) -> (r: Timer)
        ensures
            r.start == now,
    {
        Timer { start: now }
    }

    /// The ticks from the start to tick `now`, across a wrap of the counter.
    pub fn stop(self, now: u32) -> (r: u32)
        ensures
            r == (if now >= self.start { now - self.start } else { now + 0x1_0000_0000 - self.start }),
    {
        now.wrapping_sub(self.start)
    }
}

} // verus!
