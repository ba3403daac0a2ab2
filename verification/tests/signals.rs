use shim_core::shim::Config;
use shim_core::signals::{exit_status, reaped_exit, signal_action, signals_to_watch, SignalAction, SignalNumbers};

fn host() -> SignalNumbers {
    SignalNumbers { term: libc::SIGTERM, int: libc::SIGINT, pipe: libc::SIGPIPE, chld: libc::SIGCHLD }
}

#[test]
fn reaper_watches_child_exits() {
    let cfg = Config::default();
    assert_eq!(
        signals_to_watch(&host(), &cfg),
        vec![libc::SIGTERM, libc::SIGINT, libc::SIGPIPE, libc::SIGCHLD]
    );
}

#[test]
fn no_reaper_ignores_child_exits() {
    let cfg = Config { no_reaper: true, ..Config::default() };
    assert_eq!(signals_to_watch(&host(), &cfg), vec![libc::SIGTERM, libc::SIGINT, libc::SIGPIPE]);
}

#[test]
fn signal_actions() {
    let n = host();
    assert_eq!(signal_action(&n, libc::SIGTERM), SignalAction::Stop);
    assert_eq!(signal_action(&n, libc::SIGINT), SignalAction::Stop);
    assert_eq!(signal_action(&n, libc::SIGCHLD), SignalAction::Reap);
    assert_eq!(signal_action(&n, libc::SIGPIPE), SignalAction::Ignore);
    assert_eq!(signal_action(&n, libc::SIGHUP), SignalAction::Ignore);
}

#[test]
fn reaped_child_reports_exit_code() {
    assert_eq!(reaped_exit(1234, 0x0300), Some((1234, 3)));
    assert_eq!(reaped_exit(1234, 0x0100), Some((1234, 1)));
    assert_eq!(reaped_exit(7, 0xff00), Some((7, 255)));
    assert_eq!(reaped_exit(7, 0), Some((7, 0)));
}

#[test]
fn nothing_reaped_reports_nothing() {
    assert_eq!(reaped_exit(0, 0x0300), None);
    assert_eq!(reaped_exit(-1, 0x0300), None);
}

#[test]
fn exit_status_agrees_with_libc() {
    for status in [0, 0x0100, 0x0300, 0xff00, 0x7f, -1, i32::MIN, i32::MAX, 0x12345678] {
        assert_eq!(exit_status(status), libc::WEXITSTATUS(status));
    }
}
