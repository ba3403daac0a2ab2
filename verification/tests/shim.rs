use shim_core::shim::{
    boot_plan, listener_recovery, parse_sockaddr, shim_action, shim_args, BootPlan, Config, ListenerRecovery,
    ShimAction, SocketWait, StartOpts, SOCKET_PROBE_ATTEMPTS, SOCKET_PROBE_INTERVAL_MS,
};

fn opts(debug: bool) -> StartOpts {
    StartOpts {
        id: "sb-1".to_string(),
        publish_binary: "/usr/bin/containerd".to_string(),
        address: "/run/containerd/containerd.sock".to_string(),
        ttrpc_address: "/run/containerd/containerd.sock.ttrpc".to_string(),
        namespace: "k8s.io".to_string(),
        debug,
    }
}

#[test]
fn action_words() {
    assert_eq!(shim_action(&"start".to_string()), ShimAction::Start);
    assert_eq!(shim_action(&"delete".to_string()), ShimAction::Delete);
    assert_eq!(shim_action(&"".to_string()), ShimAction::Serve);
    assert_eq!(shim_action(&"Start".to_string()), ShimAction::Serve);
}

#[test]
fn boot_plan_defaults() {
    let plan = boot_plan(&Config::default(), &"other".to_string());
    assert_eq!(plan, BootPlan { set_subreaper: true, setup_logger: true, action: ShimAction::Serve });
    let plan = boot_plan(&Config::default(), &"start".to_string());
    assert_eq!(plan, BootPlan { set_subreaper: true, setup_logger: false, action: ShimAction::Start });
}

#[test]
fn boot_plan_switches() {
    let cfg = Config { no_setup_logger: true, no_reaper: false, no_sub_reaper: true };
    let plan = boot_plan(&cfg, &"serve".to_string());
    assert_eq!(plan, BootPlan { set_subreaper: false, setup_logger: false, action: ShimAction::Serve });
    let plan = boot_plan(&cfg, &"delete".to_string());
    assert_eq!(plan.action, ShimAction::Delete);
}

#[test]
fn server_args_without_debug() {
    assert_eq!(
        shim_args(&opts(false)),
        vec!["-namespace", "k8s.io", "-id", "sb-1", "-address", "/run/containerd/containerd.sock"]
    );
}

#[test]
fn server_args_with_debug() {
    assert_eq!(
        shim_args(&opts(true)),
        vec!["-namespace", "k8s.io", "-id", "sb-1", "-address", "/run/containerd/containerd.sock", "-debug"]
    );
}

#[test]
fn listener_recoveries() {
    assert_eq!(listener_recovery(true, false), ListenerRecovery::Fail);
    assert_eq!(listener_recovery(true, true), ListenerRecovery::ProbeExisting);
    assert_eq!(listener_recovery(false, false), ListenerRecovery::ProbeExisting);
    assert_eq!(listener_recovery(false, true), ListenerRecovery::ProbeExisting);
}

#[test]
fn socket_wait_counts_attempts() {
    assert_eq!(SOCKET_PROBE_ATTEMPTS, 200);
    assert_eq!(SOCKET_PROBE_INTERVAL_MS, 5);
    let mut w = SocketWait::new(3);
    let mut attempts = 0;
    while w.should_attempt() {
        attempts += 1;
        w.attempt_failed();
    }
    assert_eq!(attempts, 3);
    assert!(!SocketWait::new(0).should_attempt());
}

#[test]
fn sockaddr_paths() {
    assert_eq!(parse_sockaddr("unix:///run/s/abc"), "/run/s/abc");
    assert_eq!(parse_sockaddr("/run/s/abc"), "/run/s/abc");
    assert_eq!(parse_sockaddr("unix://"), "");
    assert_eq!(parse_sockaddr("unix:/x"), "unix:/x");
    assert_eq!(parse_sockaddr("vsock://3:1024"), "vsock://3:1024");
}
