use shim_core::monitor::{Delivery, Monitor, Subject, Topic};

fn ids(ds: &[Delivery]) -> Vec<i64> {
    ds.iter().map(|d| d.subscriber).collect()
}

#[test]
fn subscribe_hands_out_increasing_ids() {
    let mut m = Monitor::new();
    assert_eq!(m.next_id(), 0);
    let a = m.subscribe(Topic::Pid).unwrap();
    let b = m.subscribe(Topic::Exec).unwrap();
    let c = m.subscribe(Topic::All).unwrap();
    assert_eq!((a.id, b.id, c.id), (0, 1, 2));
    assert_eq!(m.next_id(), 3);
    assert!(m.sender(0).is_some());
    assert!(m.sender(3).is_none());
}

#[test]
fn pid_exit_reaches_pid_then_all_subscribers() {
    let mut m = Monitor::new();
    let _all = m.subscribe(Topic::All).unwrap();
    let _pid = m.subscribe(Topic::Pid).unwrap();
    let _exec = m.subscribe(Topic::Exec).unwrap();
    let _pid2 = m.subscribe(Topic::Pid).unwrap();
    let ds = m.notify_by_pid(4242, 3);
    assert_eq!(ids(&ds), vec![1, 3, 0]);
    for d in &ds {
        assert_eq!(d.event.exit_code, 3);
        assert!(matches!(d.event.subject, Subject::Pid(4242)));
    }
}

#[test]
fn exec_exit_reaches_exec_then_all_subscribers() {
    let mut m = Monitor::new();
    let _pid = m.subscribe(Topic::Pid).unwrap();
    let _exec = m.subscribe(Topic::Exec).unwrap();
    let _all = m.subscribe(Topic::All).unwrap();
    let ds = m.notify_by_exec("c-1", "e-1", 137);
    assert_eq!(ids(&ds), vec![1, 2]);
    for d in &ds {
        assert_eq!(d.event.exit_code, 137);
        match &d.event.subject {
            Subject::Exec(c, e) => {
                assert_eq!(c, "c-1");
                assert_eq!(e, "e-1");
            }
            _ => panic!("an exec exit names the exec"),
        }
    }
}

#[test]
fn no_subscribers_no_deliveries() {
    let m = Monitor::new();
    assert!(m.notify_by_pid(1, 0).is_empty());
    assert!(m.notify_by_exec("c", "e", 0).is_empty());
}

#[test]
fn unsubscribed_subscriber_hears_nothing() {
    let mut m = Monitor::new();
    let a = m.subscribe(Topic::Pid).unwrap();
    let b = m.subscribe(Topic::Pid).unwrap();
    assert!(m.unsubscribe(a.id).is_ok());
    assert!(m.sender(a.id).is_none());
    assert_eq!(ids(&m.notify_by_pid(9, 1)), vec![b.id]);
}

#[test]
fn unsubscribe_unknown_id_changes_nothing() {
    let mut m = Monitor::new();
    let _a = m.subscribe(Topic::All).unwrap();
    assert!(m.unsubscribe(77).is_ok());
    assert_eq!(m.next_id(), 1);
    assert_eq!(ids(&m.notify_by_pid(9, 1)), vec![0]);
}

#[test]
fn unsubscribe_undoes_subscribe() {
    let mut m = Monitor::new();
    let _a = m.subscribe(Topic::Pid).unwrap();
    let _b = m.subscribe(Topic::All).unwrap();
    let before = ids(&m.notify_by_pid(5, 0));
    let c = m.subscribe(Topic::Pid).unwrap();
    assert_eq!(ids(&m.notify_by_pid(5, 0)), vec![0, 2, 1]);
    m.unsubscribe(c.id).unwrap();
    assert_eq!(ids(&m.notify_by_pid(5, 0)), before);
    // The id is not handed out again.
    let d = m.subscribe(Topic::Pid).unwrap();
    assert_eq!(d.id, 3);
}

#[test]
fn each_subscriber_told_once() {
    let mut m = Monitor::new();
    for t in [Topic::Pid, Topic::All, Topic::Exec, Topic::Pid, Topic::All] {
        m.subscribe(t).unwrap();
    }
    let mut got = ids(&m.notify_by_pid(1, 1));
    got.sort();
    assert_eq!(got, vec![0, 1, 3, 4]);
}

#[test]
fn subscription_channel_carries_events() {
    let mut m = Monitor::new();
    let mut sub = m.subscribe(Topic::Pid).unwrap();
    for d in m.notify_by_pid(31, 2) {
        m.sender(d.subscriber).unwrap().try_send(d.event).unwrap();
    }
    let ev = sub.rx.try_recv().unwrap();
    assert_eq!(ev.exit_code, 2);
    assert!(matches!(ev.subject, Subject::Pid(31)));
}

#[test]
fn each_sender_reaches_its_own_subscriber() {
    let mut m = Monitor::new();
    let mut a = m.subscribe(Topic::Pid).unwrap();
    let mut b = m.subscribe(Topic::All).unwrap();
    for d in m.notify_by_pid(11, 4) {
        let code = if d.subscriber == a.id { 1 } else { 2 };
        let mut ev = d.event;
        ev.exit_code = code;
        m.sender(d.subscriber).unwrap().try_send(ev).unwrap();
    }
    assert_eq!(a.rx.try_recv().unwrap().exit_code, 1);
    assert_eq!(b.rx.try_recv().unwrap().exit_code, 2);
    assert!(a.rx.try_recv().is_err());
    assert!(b.rx.try_recv().is_err());
}

#[test]
fn all_subscriber_told_once_per_exit() {
    let mut m = Monitor::new();
    let _all = m.subscribe(Topic::All).unwrap();
    assert_eq!(ids(&m.notify_by_pid(1, 0)), vec![0]);
    assert_eq!(ids(&m.notify_by_exec("c", "e", 0)), vec![0]);
}
