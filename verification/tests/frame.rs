use bsp_loader::frame::{
    cluster_draw, overlay_text, pass_plan, status_lights, ClusterDraw, FrameTimers, PassPlan,
    PassShader,
};
use bsp_loader::frame::{
    displacement_shader, field_mode_enabled, pixel_format, scissor, shader_changes,
    tex_cache_region, Timer, DisplacementShader, GX_PF_RGB565_Z16, GX_PF_RGB8_Z24,
};
use bsp_loader::game::{GameSettings, GpPerfMetric0, PerformanceMetrics};
use bsp_loader::map_data::ClusterGeometry;

#[test]
fn pass_plans() {
    assert_eq!(pass_plan(0), PassPlan { shader: PassShader::Lightmapped, blend: false });
    assert_eq!(pass_plan(1), PassPlan { shader: PassShader::LightmappedBaaa, blend: false });
    assert_eq!(pass_plan(2), PassPlan { shader: PassShader::Lightmapped, blend: true });
    assert_eq!(pass_plan(3), PassPlan { shader: PassShader::LightmappedBaaa, blend: true });
    assert_eq!(pass_plan(4), PassPlan { shader: PassShader::UnlitGeneric, blend: false });
    assert_eq!(pass_plan(5), PassPlan { shader: PassShader::SelfIllum, blend: false });
}

#[test]
fn cluster_draw_decisions() {
    let mut ranges = [[0usize; 2]; 18];
    ranges[1] = [4, 9];
    let g = ClusterGeometry { byte_code_index_ranges: ranges };
    assert_eq!(cluster_draw(&g, 1, true), ClusterDraw::Draw { bind_lightmap: true });
    assert_eq!(cluster_draw(&g, 1, false), ClusterDraw::Skip);
    assert_eq!(cluster_draw(&g, 0, false), ClusterDraw::Draw { bind_lightmap: false });
}

#[test]
fn timer_bar_and_lights() {
    let t = FrameTimers { game_logic: 1, main_draw: 2, copy_to_texture: 0, debug_draw: 3, draw_done: 4, idle: 5 };
    assert_eq!(t.bar_edges(), [0, 1, 3, 3, 6, 10, 15]);
    assert_eq!(status_lights(-1, 2), [false, true, false]);
    assert_eq!(status_lights(7, 3), [true, true, true]);
    assert_eq!(status_lights(0, 1), [true, false, true]);
}

#[test]
fn overlay_lines() {
    let mut s = GameSettings::new(false);
    s.ui_item = 3;
    s.gp_perf_metric0 = GpPerfMetric0::TRIANGLES;
    let mut m = PerformanceMetrics::zeroed();
    m.gp_b = 1234;
    let text = overlay_text(&s, &m);
    assert_eq!(
        text,
        "   MSAA: false\n   Copy filter: false\n   Lightmap style: 0\n-> GP perf metric 0: TRIANGLES\n   GP perf metric 1: NONE\ngp_a: 0\ngp_b: 1234\ngp_c: 0\ngp_d: 0\nvcache_metric_check: 0\nvcache_metric_miss: 0\nvcache_metric_stall: 0\n"
    );
}

#[test]
fn skybox_faces() {
    let faces = bsp_loader::frame::skybox();
    assert_eq!(faces.len(), 5);
    assert_eq!(faces.iter().map(|f| f.texture).collect::<Vec<_>>(), vec![0, 1, 2, 3, 4]);
    let first = faces[0].vertices[0];
    assert_eq!((first.x, first.y, first.z, first.s, first.t), (10, 10, 10, 0, 0));
    let last = faces[4].vertices[3];
    assert_eq!((last.x, last.y, last.z, last.s, last.t), (10, 10, 10, 0, 1));
    // Every face of the +X face lies on x = 10.
    assert!(faces[0].vertices.iter().all(|v| v.x == 10));
    assert!(faces[1].vertices.iter().all(|v| v.x == -10));
    assert!(faces[3].vertices.iter().all(|v| v.y == -10));
    assert!(faces[4].vertices.iter().all(|v| v.z == 10));
}

#[test]
fn display_settings() {
    assert_eq!(scissor(None), (0, 0, 640, 480, 0));
    assert_eq!(scissor(Some(false)), (0, 0, 640, 240, 0));
    assert_eq!(scissor(Some(true)), (0, 240, 640, 240, 240));
    assert_eq!(pixel_format(true), GX_PF_RGB565_Z16);
    assert_eq!(pixel_format(false), GX_PF_RGB8_Z24);
    assert!(field_mode_enabled(480, 240));
    assert!(!field_mode_enabled(480, 480));
    assert_eq!(tex_cache_region(0), (0, 512 * 1024));
    assert_eq!(tex_cache_region(3), (384 * 1024, 896 * 1024));
    assert_eq!(displacement_shader(0), DisplacementShader::Lightmapped);
    assert_eq!(displacement_shader(1), DisplacementShader::WorldVertexTransition);
    assert!(shader_changes(None, 0));
    assert!(!shader_changes(Some(1), 1));
    assert!(shader_changes(Some(0), 1));
    assert_eq!(Timer::start(10).stop(25), 15);
    assert_eq!(Timer::start(0xffff_fff0).stop(0x10), 0x20);
    assert_eq!(Timer::start(7).stop(7), 0);
}
