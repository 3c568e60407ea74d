use pomodoro::display::format_mm_ss;
use pomodoro::display::render_snapshot;
use pomodoro::display::u64_to_dec;
use pomodoro::display::u64_to_dec_pad2;
use pomodoro::input::apply_command;
use pomodoro::input::interpret_key;
use pomodoro::input::Command;
use pomodoro::timer::new_timer;

#[test]
fn mm_ss_formatting() {
    assert_eq!(format_mm_ss(125), "02:05");
    assert_eq!(format_mm_ss(0), "00:00");
    assert_eq!(format_mm_ss(59), "00:59");
    assert_eq!(format_mm_ss(60), "01:00");
    assert_eq!(format_mm_ss(3_599), "59:59");
    // minutes over 99 take as many digits as they need
    assert_eq!(format_mm_ss(6_000), "100:00");
}

#[test]
fn decimal_rendering() {
    assert_eq!(u64_to_dec(0), "0");
    assert_eq!(u64_to_dec(7), "7");
    assert_eq!(u64_to_dec(10), "10");
    assert_eq!(u64_to_dec(120), "120");
    assert_eq!(u64_to_dec(u64::MAX), "18446744073709551615");
    assert_eq!(u64_to_dec_pad2(3), "03");
    assert_eq!(u64_to_dec_pad2(42), "42");
}

#[test]
fn snapshot_of_a_running_timer() {
    let t = new_timer(0, 125);
    let s = render_snapshot(&t, 0);
    assert_eq!(s.remaining_text, "02:05");
    assert_eq!(s.progress_permille, 0);
    assert!(!s.paused);
}

#[test]
fn snapshot_of_an_expired_timer() {
    let t = new_timer(0, 5);
    let s = render_snapshot(&t, 8_000);
    assert_eq!(s.remaining_text, "00:00");
    assert_eq!(s.progress_permille, 1_000);
}

#[test]
fn snapshot_rounds_remaining_seconds_down() {
    let t = new_timer(0, 5);
    // 4.5 s remain: displayed as 4 whole seconds
    let s = render_snapshot(&t, 500);
    assert_eq!(s.remaining_text, "00:04");
}

#[test]
fn snapshot_of_a_paused_timer() {
    let mut t = new_timer(0, 60);
    t.pause(10_000);
    let s = render_snapshot(&t, 50_000);
    assert_eq!(s.remaining_text, "00:50");
    assert!(s.paused);
}

#[test]
fn key_presses_decode_to_commands() {
    assert_eq!(interpret_key(Some('q'), true), Command::Quit);
    assert_eq!(interpret_key(Some(' '), true), Command::TogglePause);
    assert_eq!(interpret_key(Some('r'), true), Command::Reset);
    assert_eq!(interpret_key(Some('x'), true), Command::Ignore);
    assert_eq!(interpret_key(None, true), Command::Ignore);
}

#[test]
fn releases_and_repeats_are_ignored() {
    assert_eq!(interpret_key(Some('q'), false), Command::Ignore);
    assert_eq!(interpret_key(Some(' '), false), Command::Ignore);
    assert_eq!(interpret_key(None, false), Command::Ignore);
}

#[test]
fn toggle_pauses_then_resumes() {
    let mut t = new_timer(0, 5);
    apply_command(&mut t, Command::TogglePause, 1_000);
    assert!(t.paused);
    assert_eq!(t.paused_at, Some(1_000));
    apply_command(&mut t, Command::TogglePause, 2_000);
    assert!(!t.paused);
    assert_eq!(t.elapsed(2_000), 1_000);
}

#[test]
fn reset_command_restarts_the_run() {
    let mut t = new_timer(0, 5);
    let _ = t.tick_alert(7_000);
    apply_command(&mut t, Command::Reset, 8_000);
    assert!(!t.alert_fired);
    assert_eq!(t.remaining(8_000), 5_000);
}

#[test]
fn quit_and_ignore_leave_the_timer_alone() {
    let mut t = new_timer(3, 5);
    apply_command(&mut t, Command::Quit, 9_000);
    apply_command(&mut t, Command::Ignore, 9_000);
    assert_eq!(t.start_reference, 3);
    assert!(!t.paused);
    assert!(!t.alert_fired);
}
