use rambo::desktop::WindowRequest;
use rambo::history::{new_log_lines, new_shared_log_lines, push_bounded, push_log_line, MAX_LOG_LINES};
use rambo::monitor::{new_shared_pressure, new_shared_ram, new_shared_top_procs};
use rambo::sound::{audio_players, chosen_clip, clip_volume, scaled_clip_name, volume_filter};
use std::collections::VecDeque;
use std::sync::atomic::Ordering;

#[test]
fn bounded_history_drops_oldest() {
    let mut b: VecDeque<u32> = VecDeque::new();
    for i in 0..5 {
        push_bounded(&mut b, i, 3);
    }
    assert_eq!(b, VecDeque::from(vec![2, 3, 4]));
}

#[test]
fn log_lines_keep_most_recent() {
    let mut l = new_log_lines();
    for i in 0..(MAX_LOG_LINES + 5) {
        push_log_line(&mut l, format!("line {i}"));
    }
    assert_eq!(l.len(), MAX_LOG_LINES);
    assert_eq!(l.front().unwrap(), "line 5");
    assert_eq!(l.back().unwrap(), &format!("line {}", MAX_LOG_LINES + 4));
}

#[test]
fn shared_handles_start_empty() {
    assert_eq!(new_shared_ram().load(Ordering::Relaxed), 0);
    assert_eq!(f64::from_bits(new_shared_pressure().load(Ordering::Relaxed)), 0.0);
    assert!(new_shared_top_procs().lock().unwrap().is_empty());
    let logs = new_shared_log_lines();
    push_log_line(&mut logs.lock().unwrap(), "hello".to_string());
    assert_eq!(logs.lock().unwrap().len(), 1);
}

#[test]
fn sound_volume_choices() {
    assert_eq!(clip_volume(40), 40);
    assert_eq!(clip_volume(100), 100);
    assert_eq!(clip_volume(250), 100);
    assert_eq!(scaled_clip_name("warning", 40), "warning.v40.oga");
    assert_eq!(scaled_clip_name("kill", 5), "kill.v5.oga");
    for pct in 0..=100u8 {
        assert_eq!(volume_filter(pct), format!("volume={:.3}", pct as f32 / 100.0));
    }
    assert_eq!(chosen_clip("/a.oga", 100, Some("/b.oga".to_string())), "/a.oga");
    assert_eq!(chosen_clip("/a.oga", 50, Some("/b.oga".to_string())), "/b.oga");
    assert_eq!(chosen_clip("/a.oga", 50, None), "/a.oga");
}

#[test]
fn players_in_order() {
    let p = audio_players();
    let names: Vec<&str> = p.iter().map(|p| p.program).collect();
    assert_eq!(names, vec!["pw-play", "paplay", "canberra-gtk-play", "ogg123", "ffplay", "mpv"]);
    assert_eq!(p[4].args, vec!["-nodisp", "-autoexit", "-loglevel", "quiet"]);
}

#[test]
fn window_requests_differ() {
    assert_ne!(WindowRequest::Settings, WindowRequest::History);
}

#[test]
fn history_after_many_pushes_holds_last() {
    let mut b: VecDeque<u32> = VecDeque::new();
    for i in 0..2 {
        push_bounded(&mut b, i, 900);
    }
    assert_eq!(b, VecDeque::from(vec![0, 1]));
    for i in 2..1000 {
        push_bounded(&mut b, i, 900);
    }
    assert_eq!(b.len(), 900);
    assert_eq!(b.front(), Some(&100));
    assert_eq!(b.back(), Some(&999));
}
