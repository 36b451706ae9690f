use rambo::monitor::{countdown_ticks, kill_step, report_due, KillStep, TERM_GRACE_MS};
use rambo::config::{Config, KillableApp};
use rambo::monitor::{
    find_all_matching, find_target, free_ram_mb, kill_counts, kill_report_body, mb_from_bytes,
    notification_timeout_ms, top_processes, total_ram_mb, verdict_from_action, verdict_timeout_secs,
    warning_body, MonitorState, Verdict,
};
use rambo::process::{memory_total, pids_matching, rank_processes, select_target, ProcessInfo};
use sysinfo::{Pid, System};

fn proc_(pid: u32, name: &str, memory: u64, is_thread: bool) -> ProcessInfo {
    ProcessInfo { pid: Pid::from_u32(pid), name: name.to_string(), memory, is_thread }
}

fn app(name: &str, enabled: bool) -> KillableApp {
    KillableApp { name: name.to_string(), display_name: None, enabled }
}

fn snapshot() -> Vec<ProcessInfo> {
    vec![
        proc_(10, "Firefox", 100, false),
        proc_(11, "slack", 50, false),
        proc_(12, "firefox-bin", 70, false),
        proc_(13, "Web Content", 30, false),
        proc_(14, "Web Content", 40, false),
        proc_(15, "Web Content", 999, true),
        proc_(16, "bash", 5, false),
    ]
}

#[test]
fn matching_is_case_insensitive_substring() {
    let procs = snapshot();
    let pids = pids_matching(&procs, "FireFox");
    assert_eq!(pids, vec![Pid::from_u32(10), Pid::from_u32(12)]);
    assert_eq!(pids_matching(&procs, "content"), vec![Pid::from_u32(13), Pid::from_u32(14), Pid::from_u32(15)]);
    assert!(pids_matching(&procs, "discord").is_empty());
}

#[test]
fn target_is_first_enabled_running_app() {
    let procs = snapshot();
    let apps = vec![app("discord", true), app("firefox", false), app("slack", true), app("bash", true)];
    let (pids, i) = select_target(&procs, &apps).unwrap();
    assert_eq!(i, 2);
    assert_eq!(pids, vec![Pid::from_u32(11)]);
    let apps2 = vec![app("firefox", true), app("slack", true)];
    let (pids2, i2) = select_target(&procs, &apps2).unwrap();
    assert_eq!(i2, 0);
    assert_eq!(pids2.len(), 2);
}

#[test]
fn no_target_when_nothing_runs() {
    let procs = snapshot();
    let apps = vec![app("discord", true), app("slack", false)];
    assert!(select_target(&procs, &apps).is_none());
    assert!(select_target(&procs, &[]).is_none());
}

#[test]
fn ranking_sums_by_name_and_skips_threads() {
    let procs = snapshot();
    let top = rank_processes(&procs, 3);
    assert_eq!(
        top,
        vec![("Firefox".to_string(), 100), ("firefox-bin".to_string(), 70), ("Web Content".to_string(), 70)]
    );
    let all = rank_processes(&procs, 10);
    assert_eq!(all.len(), 5);
    assert_eq!(all[4], ("bash".to_string(), 5));
    assert!(rank_processes(&procs, 0).is_empty());
}

#[test]
fn memory_total_detects_overflow() {
    assert_eq!(memory_total(&snapshot()), Some(295));
    let big = vec![proc_(1, "a", u64::MAX, false), proc_(2, "b", 1, false)];
    assert_eq!(memory_total(&big), None);
    let thread = vec![proc_(1, "a", u64::MAX, false), proc_(2, "b", 1, true)];
    assert_eq!(memory_total(&thread), Some(u64::MAX));
}

#[test]
fn bytes_to_mb() {
    assert_eq!(mb_from_bytes(0), 0);
    assert_eq!(mb_from_bytes(1_048_575), 0);
    assert_eq!(mb_from_bytes(1_048_576), 1);
    assert_eq!(mb_from_bytes(5 * 1_048_576 + 7), 5);
}

#[test]
fn live_system_readings() {
    let sys = System::new_all();
    let free = free_ram_mb(&sys);
    let total = total_ram_mb(&sys);
    assert!(free <= total);
    let top = top_processes(&sys, 3);
    assert!(top.len() <= 3);
    for w in top.windows(2) {
        assert!(w[0].1 >= w[1].1);
    }
    assert!(find_all_matching(&sys, "no-such-process-qqzx").is_empty());
    let apps = vec![app("no-such-process-qqzx", true)];
    assert!(find_target(&sys, &apps).is_none());
}

#[test]
fn verdicts_from_actions() {
    assert_eq!(verdict_from_action("cancel"), Verdict::Spared);
    assert_eq!(verdict_from_action("kill_now"), Verdict::KillNow);
    assert_eq!(verdict_from_action("__closed"), Verdict::Expired);
    assert_eq!(verdict_from_action(""), Verdict::Expired);
}

#[test]
fn low_ram_triggers_a_hunt() {
    let mut cfg = Config::default();
    cfg.use_memory_pressure = false;
    let s = MonitorState::new();
    let c = s.check(&cfg, 100, true, 0);
    assert!(c.ram_trigger && !c.pressure_trigger && c.hunt);
    let c2 = s.check(&cfg, 4096, true, 0);
    assert!(!c2.ram_trigger && !c2.hunt);
    let c3 = s.check(&cfg, 500, false, 0);
    assert!(!c3.hunt);
}

#[test]
fn pressure_triggers_when_enabled() {
    let cfg = Config::default();
    let s = MonitorState::new();
    let c = s.check(&cfg, 4096, true, 0);
    assert!(!c.ram_trigger && c.pressure_trigger && c.hunt);
    assert!(!s.check(&cfg, 4096, false, 0).hunt);
}

#[test]
fn test_mode_forces_trigger() {
    let mut cfg = Config::default();
    cfg.test_override = true;
    let s = MonitorState::new();
    let c = s.check(&cfg, u64::MAX, false, 0);
    assert!(c.ram_trigger && c.hunt);
    assert_eq!(cfg.threshold_mb, 500);
}

#[test]
fn sparing_snoozes_then_expires() {
    let cfg = Config::default();
    let mut s = MonitorState::new();
    let kill = s.apply_verdict(Verdict::Spared, 1_000, 300);
    assert!(!kill);
    assert_eq!(s.snooze_until_ms, Some(301_000));
    assert!(s.is_snoozing(1_000));
    assert!(s.is_snoozing(300_999));
    assert!(!s.check(&cfg, 1, true, 300_999).hunt);
    assert!(!s.is_snoozing(301_000));
    assert!(s.check(&cfg, 1, true, 301_000).hunt);
}

#[test]
fn killing_keeps_state() {
    let mut s = MonitorState::new();
    assert!(s.apply_verdict(Verdict::KillNow, 5, 300));
    assert_eq!(s, MonitorState::new());
    assert!(s.apply_verdict(Verdict::Expired, 5, 300));
    assert_eq!(s.snooze_until_ms, None);
}

#[test]
fn warning_text_exact() {
    assert_eq!(
        warning_body("Firefox", 412, 30),
        "Memory's bleeding out — only 412 MB left.\n\"Firefox\" gets wasted in 30s. Nothing personal."
    );
}

#[test]
fn kill_report_exact() {
    assert_eq!(kill_counts(5, 2, 1), (3, 4));
    assert_eq!(kill_counts(3, 0, 0), (3, 3));
    assert_eq!(
        kill_report_body(4, "Slack"),
        "Took down 4 \"Slack\" process(es). Memory reclaimed. Move out."
    );
}

#[test]
fn timeouts() {
    assert_eq!(verdict_timeout_secs(30), 32);
    assert_eq!(notification_timeout_ms(30), 30_000);
    assert_eq!(notification_timeout_ms(5_000_000), (5_000_000_000u64 as u32));
}

#[test]
fn snooze_end_held_at_clock_end() {
    let mut s = MonitorState::new();
    assert!(!s.apply_verdict(Verdict::Spared, u64::MAX - 10, 300));
    assert_eq!(s.snooze_until_ms, Some(u64::MAX));
    let mut t = MonitorState::new();
    assert!(!t.apply_verdict(Verdict::Spared, 0, u64::MAX));
    assert_eq!(t.snooze_until_ms, Some(u64::MAX));
}

#[test]
fn matching_pids_listed_once() {
    let sys = System::new_all();
    let pids = find_all_matching(&sys, "");
    let mut sorted: Vec<u32> = pids.iter().map(|p| p.as_u32()).collect();
    sorted.sort();
    sorted.dedup();
    assert_eq!(sorted.len(), pids.len());
}

#[test]
fn kill_steps() {
    let pids = vec![Pid::from_u32(1), Pid::from_u32(2), Pid::from_u32(3)];
    let (rem, step) = kill_step(&pids, &vec![true, false, true], 500);
    assert_eq!(rem, vec![Pid::from_u32(1), Pid::from_u32(3)]);
    assert_eq!(step, KillStep::Wait);
    let (rem2, step2) = kill_step(&rem, &vec![false, true], TERM_GRACE_MS);
    assert_eq!(rem2, vec![Pid::from_u32(3)]);
    assert_eq!(step2, KillStep::ForceKill);
    let (rem3, step3) = kill_step(&rem2, &vec![false], 100);
    assert!(rem3.is_empty());
    assert_eq!(step3, KillStep::Report);
    assert_eq!(kill_step(&vec![], &vec![], 0).1, KillStep::Report);
    assert!(report_due(1));
    assert!(!report_due(0));
    assert_eq!(countdown_ticks(4), vec![3, 2, 1]);
    assert!(countdown_ticks(1).is_empty());
    assert!(countdown_ticks(0).is_empty());
}
