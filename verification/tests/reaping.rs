use sandbox::reaper::{forwarded_exit_code, ReapAction, Reaper, WaitEvent};

fn run(child: i32, events: &[WaitEvent]) -> Option<i32> {
    let mut r = Reaper::new(child);
    for e in events {
        if let ReapAction::Exit(code) = r.step(*e) {
            return Some(code);
        }
    }
    None
}

#[test]
fn child_exit_code_is_passed_on() {
    let events = [WaitEvent::Exited { pid: 10, code: 3 }, WaitEvent::NoChildren];
    assert_eq!(run(10, &events), Some(3));
}

#[test]
fn killed_child_gives_128_plus_signal() {
    let events = [WaitEvent::Signaled { pid: 10, signal: 9 }, WaitEvent::NoChildren];
    assert_eq!(run(10, &events), Some(137));
}

#[test]
fn other_children_do_not_count() {
    let events = [
        WaitEvent::Exited { pid: 11, code: 5 },
        WaitEvent::Signaled { pid: 12, signal: 15 },
        WaitEvent::NoChildren,
    ];
    assert_eq!(run(10, &events), Some(0));
}

#[test]
fn last_status_of_child_wins() {
    let events = [
        WaitEvent::Exited { pid: 10, code: 1 },
        WaitEvent::Other,
        WaitEvent::Interrupted,
        WaitEvent::Signaled { pid: 10, signal: 2 },
        WaitEvent::Exited { pid: 11, code: 4 },
        WaitEvent::NoChildren,
    ];
    assert_eq!(run(10, &events), Some(130));
}

#[test]
fn stops_and_interrupts_keep_waiting() {
    let mut r = Reaper::new(10);
    assert_eq!(r.step(WaitEvent::Other), ReapAction::WaitAgain);
    assert_eq!(r.step(WaitEvent::Interrupted), ReapAction::WaitAgain);
    assert_eq!(r.step(WaitEvent::Exited { pid: 10, code: 6 }), ReapAction::WaitAgain);
    assert_eq!(r.exit_code, 6);
}

#[test]
fn failed_wait_ends_with_current_code() {
    let events = [WaitEvent::Exited { pid: 10, code: 2 }, WaitEvent::Failed, WaitEvent::Exited { pid: 10, code: 9 }];
    assert_eq!(run(10, &events), Some(2));
}

#[test]
fn nothing_reaped_exits_zero() {
    assert_eq!(run(10, &[WaitEvent::NoChildren]), Some(0));
    assert_eq!(run(10, &[WaitEvent::Interrupted]), None);
}

#[test]
fn forwarded_exit_of_child() {
    assert_eq!(forwarded_exit_code(WaitEvent::Exited { pid: 7, code: 42 }), 42);
    assert_eq!(forwarded_exit_code(WaitEvent::Signaled { pid: 7, signal: 9 }), 0);
    assert_eq!(forwarded_exit_code(WaitEvent::Other), 0);
    assert_eq!(forwarded_exit_code(WaitEvent::Failed), 0);
    assert_eq!(forwarded_exit_code(WaitEvent::NoChildren), 0);
}
