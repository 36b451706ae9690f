use rambo::config::{kill_priority_menu, move_down, move_up};
use rambo::config::{
    remove_app, default_sound_volume, default_true, migration_applies, Config, KillableApp, DEFAULT_THRESHOLD_MB,
    MAX_THRESHOLD_MB,
};

fn app(name: &str, display: Option<&str>, enabled: bool) -> KillableApp {
    KillableApp { name: name.to_string(), display_name: display.map(|d| d.to_string()), enabled }
}

#[test]
fn label_prefers_display_name() {
    assert_eq!(app("firefox", Some("Firefox"), true).label(), "Firefox");
    assert_eq!(app("firefox", None, true).label(), "firefox");
}

#[test]
fn defaults_of_missing_fields() {
    assert!(default_true());
    assert_eq!(default_sound_volume(), 100);
}

#[test]
fn default_config_matches_new_install() {
    let c = Config::default();
    assert_eq!(c.threshold_mb, 500);
    assert_eq!(c.countdown_seconds, 30);
    assert_eq!(c.check_interval_seconds, 5);
    assert_eq!(c.snooze_seconds, 300);
    let names: Vec<&str> = c.killable_apps.iter().map(|a| a.name.as_str()).collect();
    assert_eq!(names, vec!["slack", "discord", "firefox", "chromium", "chrome", "code", "gimp"]);
    assert_eq!(c.killable_apps[5].label(), "VS Code");
    assert!(c.killable_apps.iter().all(|a| a.enabled));
    assert!(c.use_memory_pressure);
    assert_eq!(f64::from_bits(c.pressure_threshold_bits), 25.0);
    assert!(c.warning_sound_enabled && c.kill_sound_enabled);
    assert_eq!(c.sound_volume_pct, 100);
    assert!(!c.test_override);
}

#[test]
fn sanitize_resets_poisoned_threshold() {
    let mut c = Config::default();
    c.threshold_mb = u64::MAX;
    assert!(c.sanitize());
    assert_eq!(c.threshold_mb, DEFAULT_THRESHOLD_MB);
    // repairing again changes nothing
    assert!(!c.sanitize());
    assert_eq!(c.threshold_mb, DEFAULT_THRESHOLD_MB);
}

#[test]
fn sanitize_keeps_values_in_range() {
    let mut c = Config::default();
    c.threshold_mb = MAX_THRESHOLD_MB;
    assert!(!c.sanitize());
    assert_eq!(c.threshold_mb, MAX_THRESHOLD_MB);
    c.threshold_mb = MAX_THRESHOLD_MB + 1;
    assert!(c.sanitize());
    assert_eq!(c.threshold_mb, DEFAULT_THRESHOLD_MB);
}

#[test]
fn default_config_needs_no_repair() {
    let mut c = Config::default();
    assert!(!c.sanitize());
}

#[test]
fn migration_enables_every_app() {
    let mut c = Config::default();
    c.killable_apps = vec![app("slack", Some("Slack"), false), app("gimp", None, true)];
    c.threshold_mb = 777;
    c.enable_all_apps();
    assert_eq!(c.killable_apps.len(), 2);
    assert!(c.killable_apps.iter().all(|a| a.enabled));
    assert_eq!(c.killable_apps[0].name, "slack");
    assert_eq!(c.killable_apps[0].display_name.as_deref(), Some("Slack"));
    assert_eq!(c.killable_apps[1].display_name, None);
    assert_eq!(c.threshold_mb, 777);
}

#[test]
fn migration_only_when_json_alone() {
    assert!(migration_applies(true, false));
    assert!(!migration_applies(true, true));
    assert!(!migration_applies(false, false));
    assert!(!migration_applies(false, true));
}

#[test]
fn cli_overrides_replace_given_values() {
    let mut c = Config::default();
    c.apply_overrides(Some(90000), None, Some(2));
    assert_eq!(c.threshold_mb, 90000);
    assert_eq!(c.countdown_seconds, 30);
    assert_eq!(c.check_interval_seconds, 2);
    c.apply_overrides(None, Some(5), None);
    assert_eq!(c.countdown_seconds, 5);
    assert_eq!(c.threshold_mb, 90000);
}

#[test]
fn preset_sets_threshold() {
    let mut c = Config::default();
    c.set_threshold(512);
    assert_eq!(c.threshold_mb, 512);
}

#[test]
fn sound_volumes_follow_switches() {
    let mut c = Config::default();
    c.sound_volume_pct = 40;
    assert_eq!(c.warning_volume(), Some(40));
    assert_eq!(c.kill_volume(), Some(40));
    c.warning_sound_enabled = false;
    assert_eq!(c.warning_volume(), None);
    assert_eq!(c.kill_volume(), Some(40));
    c.kill_sound_enabled = false;
    assert_eq!(c.kill_volume(), None);
}

#[test]
fn add_form_trims_and_lowercases() {
    let a = KillableApp::from_form("  Spotify \t", "  Spotify Music ").unwrap();
    assert_eq!(a.name, "spotify");
    assert_eq!(a.display_name.as_deref(), Some("Spotify Music"));
    assert!(a.enabled);
    let b = KillableApp::from_form("GIMP", "   ").unwrap();
    assert_eq!(b.name, "gimp");
    assert_eq!(b.display_name, None);
    assert_eq!(b.label(), "gimp");
}

#[test]
fn add_form_refuses_blank_name() {
    assert!(KillableApp::from_form("", "Thing").is_none());
    assert!(KillableApp::from_form(" \u{3000}\n ", "Thing").is_none());
}

#[test]
fn duplicate_copies_entry() {
    let a = app("code", Some("VS Code"), false);
    let b = a.duplicate();
    assert_eq!(b.name, "code");
    assert_eq!(b.display_name.as_deref(), Some("VS Code"));
    assert!(!b.enabled);
}

#[test]
fn remove_and_toggle_entries() {
    let mut apps = vec![app("a", None, true), app("b", None, true), app("c", None, true)];
    remove_app(&mut apps, 1);
    let names: Vec<&str> = apps.iter().map(|a| a.name.as_str()).collect();
    assert_eq!(names, vec!["a", "c"]);
    apps[0].set_enabled(false);
    assert!(!apps[0].enabled);
    assert_eq!(apps[0].name, "a");
    apps[0].set_enabled(true);
    assert!(apps[0].enabled);
}

#[test]
fn kill_priority_moves() {
    let mut apps = vec![app("a", None, true), app("b", Some("Bee"), false), app("c", None, true)];
    move_up(&mut apps, 2);
    let names: Vec<&str> = apps.iter().map(|a| a.name.as_str()).collect();
    assert_eq!(names, vec!["a", "c", "b"]);
    move_down(&mut apps, 0);
    let names: Vec<&str> = apps.iter().map(|a| a.name.as_str()).collect();
    assert_eq!(names, vec!["c", "a", "b"]);
    let menu = kill_priority_menu(&apps);
    assert_eq!(menu.len(), 3);
    assert_eq!(menu[2].label, "Bee");
    assert_eq!(menu[2].toggle_label, "Enable");
    assert_eq!(menu[0].toggle_label, "Disable");
    assert!(!menu[0].can_move_up && menu[0].can_move_down);
    assert!(menu[2].can_move_up && !menu[2].can_move_down);
}
