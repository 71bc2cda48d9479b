use singularity_toolkit::timing::{do_task, finish_message_prefix, start_message, Block, TaskTimer, Timer, TimerWidget};
use singularity_toolkit::ui_event::{Key, KeyModifiers, UIEvent};

#[test]
fn block_duration_saturates() {
    let b = Block { start_time: 10, end_time: 35, title: "t".to_string(), notes: String::new() };
    assert_eq!(b.duration(), 25);
    let back = Block { start_time: 40, end_time: 35, title: "t".to_string(), notes: String::new() };
    assert_eq!(back.duration(), 0);
}

#[test]
fn timer_runs_only_while_running() {
    let mut w = TimerWidget::new(Timer::new_clean(100), false, 0);
    w.tick(30);
    assert_eq!(w.get_timer().elapsed, 0);
    w.set_running(true);
    w.tick(50);
    assert_eq!(w.get_timer().elapsed, 20);
    assert!(!w.is_done());
    w.tick(200);
    assert_eq!(w.get_timer().elapsed, 170);
    assert!(w.is_done());
    // a finished timer no longer counts
    w.tick(500);
    assert_eq!(w.get_timer().elapsed, 170);
}

#[test]
fn space_toggles_running() {
    let mut w = TimerWidget::new(Timer::new_clean(1000), false, 0);
    w.handle_event(UIEvent::KeyPress(Key::Char(' '), KeyModifiers::none()), false, 10);
    assert!(w.is_running());
    w.handle_event(UIEvent::KeyPress(Key::Char(' '), KeyModifiers::none()), false, 25);
    assert!(!w.is_running());
    // the switch comes before the tick, so the paused stretch up to the
    // first press counts and the running stretch up to the second does not
    assert_eq!(w.get_timer().elapsed, 10);
    w.handle_event(UIEvent::MousePress([[0, 0], [10, 10]]), true, 30);
    assert!(w.is_running());
    w.handle_event(UIEvent::KeyPress(Key::Char(' '), KeyModifiers::shift()), false, 40);
    assert!(w.is_running());
}

#[test]
fn timer_increment_saturates() {
    let mut t = Timer { elapsed: u64::MAX - 1, duration: 5 };
    t.increment(10);
    assert_eq!(t.elapsed, u64::MAX);
}

#[test]
fn do_task_returns_result() {
    assert_eq!(do_task("sum".to_string(), || 2 + 3), 5);
    let timer = TaskTimer::start("manual".to_string());
    timer.end();
}

#[test]
fn task_messages() {
    assert_eq!(start_message("build"), "Starting 'build'...");
    assert_eq!(finish_message_prefix("build"), "Finished 'build' in ");
}
