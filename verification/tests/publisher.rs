use shim_core::data::{Any, Timestamp};
use shim_core::publisher::forward_request;

#[test]
fn forward_request_wraps_the_event() {
    let event = Any { type_url: "containerd.events.TaskExit".to_string(), value: vec![8, 1] };
    let ts = Timestamp { seconds: 10, nanos: 20 };
    let req = forward_request("/tasks/exit", "k8s.io", ts, event);
    let env = req.envelope.expect("the request carries an envelope");
    assert_eq!(env.topic, "/tasks/exit");
    assert_eq!(env.namespace, "k8s.io");
    let ts = env.timestamp.unwrap();
    assert_eq!((ts.seconds, ts.nanos), (10, 20));
    let ev = env.event.unwrap();
    assert_eq!(ev.type_url, "containerd.events.TaskExit");
    assert_eq!(ev.value, vec![8, 1]);
}
