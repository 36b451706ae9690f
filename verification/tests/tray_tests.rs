use rambo::tray::{
    fill_height, make_ram_icon, mb_rounded, ram_color, status_label, tool_tip_description, tray_menu,
};

fn pixel(data: &[u8], x: usize, y: usize) -> [u8; 4] {
    let i = (y * 22 + x) * 4;
    [data[i], data[i + 1], data[i + 2], data[i + 3]]
}

#[test]
fn gauge_colours() {
    assert_eq!(ram_color(0, 8000, 500), (128, 128, 128));
    assert_eq!(ram_color(100, 0, 500), (128, 128, 128));
    assert_eq!(ram_color(499, 8000, 500), (220, 50, 50));
    assert_eq!(ram_color(500, 8000, 500), (230, 160, 0));
    assert_eq!(ram_color(999, 8000, 500), (230, 160, 0));
    assert_eq!(ram_color(1000, 8000, 500), (230, 160, 0));
    assert_eq!(ram_color(1001, 8000, 500), (60, 180, 60));
    assert_eq!(ram_color(u64::MAX, 0, u64::MAX - 1), (128, 128, 128));
    assert_eq!(ram_color(5, 8000, u64::MAX), (220, 50, 50));
}

#[test]
fn fill_rows() {
    assert_eq!(fill_height(0, 0), 9);
    assert_eq!(fill_height(0, 8000), 0);
    assert_eq!(fill_height(8000, 8000), 18);
    assert_eq!(fill_height(9000, 8000), 18);
    assert_eq!(fill_height(1000, 3000), 6);
    assert_eq!(fill_height(2500, 8000), 6);
    assert_eq!(fill_height(7999, 8000), 18);
    let mut last = 0;
    for f in 0..=100 {
        let h = fill_height(f, 100);
        assert!(h >= last && h <= 18);
        last = h;
    }
}

#[test]
fn icon_layout() {
    let icons = make_ram_icon(1000, 3000, 2000);
    assert_eq!(icons.len(), 1);
    let icon = &icons[0];
    assert_eq!((icon.width, icon.height), (22, 22));
    assert_eq!(icon.data.len(), 22 * 22 * 4);
    assert_eq!(pixel(&icon.data, 0, 0), [255, 80, 80, 80]);
    assert_eq!(pixel(&icon.data, 21, 21), [255, 80, 80, 80]);
    assert_eq!(pixel(&icon.data, 10, 1), [255, 80, 80, 80]);
    // 6 filled rows: y = 14..=19 (red: 1000 < 2000)
    assert_eq!(pixel(&icon.data, 10, 19), [255, 220, 50, 50]);
    assert_eq!(pixel(&icon.data, 2, 14), [255, 220, 50, 50]);
    assert_eq!(pixel(&icon.data, 2, 13), [180, 40, 40, 40]);
    assert_eq!(pixel(&icon.data, 19, 2), [180, 40, 40, 40]);
    assert_eq!(pixel(&icon.data, 20, 15), [255, 80, 80, 80]);
}

#[test]
fn status_lines() {
    assert_eq!(status_label(0, 500), "RAM: loading…");
    assert_eq!(status_label(300, 500), "⚠ Free RAM: 300 MB (LOW)");
    assert_eq!(status_label(500, 500), "✓ Free RAM: 500 MB");
}

#[test]
fn menu_presets() {
    let m = tray_menu(3000, 1024);
    assert_eq!(m.status_label, "✓ Free RAM: 3000 MB");
    assert_eq!(m.threshold_label, "Set Threshold (1024 MB)…");
    let mbs: Vec<u64> = m.presets.iter().map(|p| p.mb).collect();
    assert_eq!(mbs, vec![256, 512, 1024, 2048, 4096]);
    let labels: Vec<&str> = m.presets.iter().map(|p| p.label.as_str()).collect();
    assert_eq!(labels, vec!["256 MB", "512 MB", "1024 MB", "2048 MB", "4096 MB"]);
    let checked: Vec<bool> = m.presets.iter().map(|p| p.checked).collect();
    assert_eq!(checked, vec![false, false, true, false, false]);
    assert!(tray_menu(3000, 1000).presets.iter().all(|p| !p.checked));
}

#[test]
fn mb_rounding_matches_float_format() {
    for bytes in [0u64, 524_287, 524_288, 1_572_864, 1_572_863, 2_621_440, 3 * 1_048_576 + 524_288, 123_456_789] {
        let expected = format!("{:.0}", bytes as f64 / 1_048_576.0);
        assert_eq!(mb_rounded(bytes).to_string(), expected, "bytes = {bytes}");
    }
}

#[test]
fn tooltip_text() {
    let top = vec![("firefox".to_string(), 3 * 1_048_576 + 524_288), ("x".to_string(), 2 * 1_048_576 + 524_288)];
    assert_eq!(
        tool_tip_description(812, "12.5", &top),
        "Free RAM: 812 MB | Pressure: 12.5%\n\nTop processes:\n1. firefox — 4 MB\n2. x — 2 MB"
    );
    assert_eq!(tool_tip_description(1, "0.0", &vec![]), "Free RAM: 1 MB | Pressure: 0.0%\n\nTop processes:");
}
