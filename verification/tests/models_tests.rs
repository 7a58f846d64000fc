use osuwapp::models::{empty_hits, normalize_toggle_key, HitSnapshot, OverlaySettings};

fn settings() -> OverlaySettings {
    OverlaySettings::default()
}

#[test]
fn default_settings_match_fresh_install() {
    let s = settings();
    assert!(s.enabled && s.show_pp && s.show_if_fc && s.show_accuracy && s.show_combo);
    assert!(s.show_mods && s.show_map && s.show_hits && s.show_background);
    assert_eq!((s.width, s.height), (420, 248));
    assert_eq!((s.offset_x, s.offset_y), (24, 24));
    assert_eq!((s.padding, s.corner_radius), (8, 12));
    assert_eq!(s.toggle_key, "Insert");
}

#[test]
fn normalized_clamps_every_range() {
    let mut s = settings();
    s.width = 0;
    s.height = 0;
    s.offset_x = -5000;
    s.offset_y = 9000;
    s.padding = 100;
    s.corner_radius = 33;
    s.toggle_key = "   ".to_string();
    let n = s.normalized();
    assert_eq!((n.width, n.height), (1, 1));
    assert_eq!((n.offset_x, n.offset_y), (-3000, 3000));
    assert_eq!((n.padding, n.corner_radius), (32, 32));
    assert_eq!(n.toggle_key, "Insert");
}

#[test]
fn normalized_keeps_values_in_range() {
    let mut s = settings();
    s.width = 7;
    s.offset_x = -3000;
    s.offset_y = 2999;
    s.padding = 32;
    s.toggle_key = "F5".to_string();
    let n = s.normalized();
    assert_eq!(n.width, 7);
    assert_eq!((n.offset_x, n.offset_y), (-3000, 2999));
    assert_eq!(n.padding, 32);
    assert_eq!(n.toggle_key, "F5");
}

#[test]
fn normalizing_twice_changes_nothing_more() {
    let mut s = settings();
    s.width = 0;
    s.offset_x = 123456;
    s.corner_radius = 99;
    s.toggle_key = "\t home \n".to_string();
    let once = s.normalized();
    let twice = once.clone().normalized();
    assert_eq!(once.width, twice.width);
    assert_eq!(once.offset_x, twice.offset_x);
    assert_eq!(once.corner_radius, twice.corner_radius);
    assert_eq!(once.toggle_key, "home");
    assert_eq!(twice.toggle_key, "home");
}

#[test]
fn toggle_key_is_trimmed_or_defaulted() {
    assert_eq!(normalize_toggle_key("  F2 "), "F2");
    assert_eq!(normalize_toggle_key(""), "Insert");
    assert_eq!(normalize_toggle_key("\u{3000}\u{a0} "), "Insert");
    assert_eq!(normalize_toggle_key("Page Up"), "Page Up");
}

#[test]
fn empty_hits_are_zero() {
    assert_eq!(
        empty_hits(),
        HitSnapshot { n_geki: 0, n_katu: 0, n300: 0, n100: 0, n50: 0, misses: 0, slider_breaks: 0 }
    );
}
