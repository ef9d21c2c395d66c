use bsp_loader::game::{
    combine_counter, disp_copy_region, map_list_choice, ui_increment, DispCopy, FrameSwap,
    GameSettings, GpPerfMetric0, GpPerfMetric1, MapListChoice, MapMenu, MenuAction,
    PerformanceMetrics, SettingsEffect, PAD_BUTTON_A, PAD_BUTTON_B, PAD_BUTTON_DOWN,
    PAD_BUTTON_LEFT, PAD_BUTTON_RIGHT, PAD_BUTTON_START, PAD_BUTTON_UP, PAD_TRIGGER_Z,
};

#[test]
fn map_list_choice_by_count() {
    assert_eq!(map_list_choice(0), MapListChoice::Empty);
    assert_eq!(map_list_choice(1), MapListChoice::Only);
    assert_eq!(map_list_choice(2), MapListChoice::Menu);
}

#[test]
fn map_menu_moves_and_wraps() {
    let mut m = MapMenu::new(25);
    assert_eq!(m.index(), 0);
    assert_eq!(m.on_buttons(PAD_BUTTON_UP), MenuAction::Moved);
    assert_eq!(m.index(), 10);
    m.on_buttons(PAD_BUTTON_UP);
    assert_eq!(m.index(), 20);
    m.on_buttons(PAD_BUTTON_UP);
    assert_eq!(m.index(), 24);
    m.on_buttons(PAD_BUTTON_UP);
    assert_eq!(m.index(), 0);
    m.on_buttons(PAD_BUTTON_DOWN);
    assert_eq!(m.index(), 24);
    m.on_buttons(PAD_BUTTON_DOWN);
    assert_eq!(m.index(), 14);
    m.on_buttons(PAD_BUTTON_DOWN);
    assert_eq!(m.index(), 4);
    m.on_buttons(PAD_BUTTON_DOWN);
    assert_eq!(m.index(), 0);
    m.on_buttons(PAD_BUTTON_LEFT);
    assert_eq!(m.index(), 24);
    m.on_buttons(PAD_BUTTON_RIGHT);
    assert_eq!(m.index(), 0);
    m.on_buttons(PAD_BUTTON_RIGHT);
    assert_eq!(m.index(), 1);
    assert_eq!(m.on_buttons(PAD_BUTTON_A), MenuAction::Choose(1));
    assert_eq!(m.on_buttons(PAD_BUTTON_B), MenuAction::Refresh);
    assert_eq!(m.on_buttons(0), MenuAction::Wait);
    assert_eq!(m.on_buttons(PAD_BUTTON_START | PAD_BUTTON_A), MenuAction::Exit);
    assert_eq!(m.index(), 1);
    assert_eq!(m.len(), 25);
}

#[test]
fn map_menu_left_right_inverse() {
    let mut m = MapMenu::new(3);
    for _ in 0..3 {
        let before = m.index();
        m.on_buttons(PAD_BUTTON_RIGHT);
        m.on_buttons(PAD_BUTTON_LEFT);
        assert_eq!(m.index(), before);
        m.on_buttons(PAD_BUTTON_RIGHT);
    }
}

#[test]
fn perf_metric_cycles() {
    assert_eq!(GpPerfMetric0::VERTICES.prev(), GpPerfMetric0::NONE);
    assert_eq!(GpPerfMetric0::NONE.next(), GpPerfMetric0::VERTICES);
    assert_eq!(GpPerfMetric0::CLOCKS.next(), GpPerfMetric0::NONE);
    assert_eq!(GpPerfMetric0::CLIP_VTX.prev(), GpPerfMetric0::VERTICES);
    assert_eq!(GpPerfMetric0::TRIANGLES.index(), 11);
    assert_eq!(GpPerfMetric0::from_index(35), Some(GpPerfMetric0::NONE));
    assert_eq!(GpPerfMetric0::from_index(36), None);
    assert_eq!(GpPerfMetric1::TEXELS.prev(), GpPerfMetric1::NONE);
    assert_eq!(GpPerfMetric1::NONE.next(), GpPerfMetric1::TEXELS);
    assert_eq!(GpPerfMetric1::VERTICES.index(), 16);
    assert_eq!(GpPerfMetric1::from_index(23), None);
    for i in 0..36 {
        let m = GpPerfMetric0::from_index(i).unwrap();
        assert_eq!(m.next().prev(), m);
        assert_eq!(m.prev().next(), m);
    }
}

#[test]
fn settings_overlay() {
    let mut s = GameSettings::new(true);
    assert!(s.widescreen);
    // Right on the first entry toggles antialiasing.
    let e = s.on_buttons(PAD_BUTTON_RIGHT);
    assert_eq!(e, SettingsEffect { map_select: false, relight: false });
    assert!(s.msaa);
    // Up from the first entry wraps to the last.
    s.on_buttons(PAD_BUTTON_UP);
    assert_eq!(s.ui_item, 4);
    s.on_buttons(PAD_BUTTON_LEFT);
    assert_eq!(s.gp_perf_metric1, GpPerfMetric1::CLOCKS);
    s.on_buttons(PAD_BUTTON_UP);
    assert_eq!(s.ui_item, 3);
    s.on_buttons(PAD_BUTTON_RIGHT);
    assert_eq!(s.gp_perf_metric0, GpPerfMetric0::VERTICES);
    s.on_buttons(PAD_BUTTON_UP);
    assert_eq!(s.ui_item, 2);
    let e = s.on_buttons(PAD_BUTTON_LEFT);
    assert_eq!(s.lightmap_style, 3);
    assert!(e.relight);
    let e = s.on_buttons(PAD_BUTTON_RIGHT);
    assert_eq!(s.lightmap_style, 0);
    assert!(e.relight);
    let e = s.on_buttons(PAD_BUTTON_LEFT | PAD_BUTTON_RIGHT);
    assert_eq!(s.lightmap_style, 0);
    assert!(!e.relight);
    s.on_buttons(PAD_BUTTON_DOWN);
    s.on_buttons(PAD_BUTTON_DOWN);
    s.on_buttons(PAD_BUTTON_DOWN);
    assert_eq!(s.ui_item, 0);
    let e = s.on_buttons(PAD_BUTTON_START | PAD_TRIGGER_Z);
    assert!(e.map_select);
    assert!(s.inverted_pitch_control);
    // Up and down in the same frame leave the entry where it was.
    s.on_buttons(PAD_BUTTON_UP | PAD_BUTTON_DOWN);
    assert_eq!(s.ui_item, 0);
}

#[test]
fn ui_increment_values() {
    assert_eq!(ui_increment(PAD_BUTTON_LEFT), -1);
    assert_eq!(ui_increment(PAD_BUTTON_RIGHT), 1);
    assert_eq!(ui_increment(PAD_BUTTON_LEFT | PAD_BUTTON_RIGHT), 0);
    assert_eq!(ui_increment(0), 0);
}

#[test]
fn counters_and_copies() {
    assert_eq!(combine_counter(0x1234, 0x5678), 0x1234_5678);
    assert_eq!(combine_counter(0, 0xffff), 0xffff);
    let m = PerformanceMetrics::from_halves([(1, 2), (0, 5), (0xffff, 0xffff), (0, 0), (2, 0), (0, 1), (3, 3)]);
    assert_eq!(m.gp_a, 0x0001_0002);
    assert_eq!(m.gp_b, 5);
    assert_eq!(m.gp_c, 0xffff_ffff);
    assert_eq!(m.vcache_metric_check, 0x0002_0000);
    assert_eq!(m.vcache_metric_stall, 0x0003_0003);
    assert_eq!(PerformanceMetrics::zeroed().gp_a, 0);
    assert_eq!(disp_copy_region(None), DispCopy { src_height: 480, dst_height: 480, xfb_offset: 0 });
    assert_eq!(disp_copy_region(Some(false)), DispCopy { src_height: 240, dst_height: 240, xfb_offset: 0 });
    assert_eq!(
        disp_copy_region(Some(true)),
        DispCopy { src_height: 240, dst_height: 240, xfb_offset: 2 * 640 * 240 }
    );
}

#[test]
fn frame_swap_shows_finished_frames() {
    let mut s = FrameSwap::new(0x1000, 0x2000);
    assert_eq!(s.on_retrace(), None);
    assert_eq!(s.frames, 1);
    s.request_copy();
    assert_eq!(s.on_retrace(), Some(0x2000));
    assert_eq!(s.front, 0x2000);
    assert_eq!(s.back, 0x1000);
    assert_eq!(s.last_frame_frames, 2);
    assert_eq!(s.frames, 0);
    s.request_copy();
    assert_eq!(s.on_retrace(), Some(0x1000));
    assert_eq!((s.front, s.back), (0x1000, 0x2000));
}
