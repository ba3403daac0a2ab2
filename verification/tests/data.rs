use shim_core::data::{
    Any, ContainerData, ControllerCreateRequest, Mount, PrepareRequest, ProcessData, RootfsMount,
    SandboxData, Timestamp,
};

fn encoded_config() -> Vec<u8> {
    let mut config = k8s_cri::v1::PodSandboxConfig::default();
    config.hostname = "pod-host".to_string();
    let mut buf: Vec<u8> = Vec::new();
    prost::Message::encode(&config, &mut buf).unwrap();
    buf
}

fn create_request(options: Option<Any>) -> ControllerCreateRequest {
    ControllerCreateRequest {
        sandbox_id: "sb-1".to_string(),
        rootfs: vec![],
        options,
        netns_path: "/var/run/netns/sb-1".to_string(),
    }
}

fn prepare_request(spec: Option<Any>) -> PrepareRequest {
    PrepareRequest {
        sandbox_id: "sb-1".to_string(),
        container_id: "c-1".to_string(),
        exec_id: "e-1".to_string(),
        spec,
        rootfs: vec![RootfsMount {
            mount_type: "overlay".to_string(),
            source: "overlay".to_string(),
            target: "/run/rootfs".to_string(),
            options: vec!["lowerdir=/a".to_string(), "upperdir=/b".to_string()],
        }],
        stdin: "/in".to_string(),
        stdout: "/out".to_string(),
        stderr: "/err".to_string(),
        terminal: true,
    }
}

fn any_of(bytes: Vec<u8>) -> Any {
    Any { type_url: "type".to_string(), value: bytes }
}

#[test]
fn sandbox_without_options_has_no_config() {
    let data = SandboxData::new(&create_request(None));
    assert_eq!(data.id, "sb-1");
    assert_eq!(data.netns, "/var/run/netns/sb-1");
    assert_eq!(data.task_address, "");
    assert!(data.config.is_none());
    assert!(data.spec.is_none());
    assert!(data.labels.is_empty());
    assert!(data.extensions.is_empty());
    assert!(data.created_at.is_some());
    assert!(data.started_at.is_none());
    assert!(data.exited_at.is_none());
}

#[test]
fn sandbox_decodes_config_from_options() {
    let data = SandboxData::new(&create_request(Some(any_of(encoded_config()))));
    let config = data.config.expect("the options hold a config");
    assert_eq!(config.hostname, "pod-host");
}

#[test]
fn sandbox_drops_undecodable_config() {
    // A field with wire type 7 does not exist in protobuf.
    let data = SandboxData::new(&create_request(Some(any_of(vec![0x0f, 0x01]))));
    assert!(data.config.is_none());
    assert_eq!(data.id, "sb-1");
}

#[test]
fn sandbox_assemble_keeps_given_parts() {
    let now = std::time::SystemTime::UNIX_EPOCH;
    let data = SandboxData::assemble(&create_request(None), None, now);
    assert_eq!(data.created_at, Some(now));
    assert!(data.config.is_none());
}

#[test]
fn container_parses_spec_and_converts_mounts() {
    let spec = serde_json::to_vec(&oci_spec::runtime::Spec::default()).unwrap();
    let data = ContainerData::new(&prepare_request(Some(any_of(spec))));
    assert_eq!(data.id, "c-1");
    assert!(data.spec.is_some());
    assert_eq!(data.rootfs.len(), 1);
    let m: &Mount = &data.rootfs[0];
    assert_eq!(m.destination, "/run/rootfs");
    assert_eq!(m.mount_type, "overlay");
    assert_eq!(m.source, "overlay");
    assert_eq!(m.options, vec!["lowerdir=/a".to_string(), "upperdir=/b".to_string()]);
    let io = data.io.expect("streams are always recorded");
    assert_eq!(io.stdin, "/in");
    assert_eq!(io.stdout, "/out");
    assert_eq!(io.stderr, "/err");
    assert!(io.terminal);
    assert!(data.processes.is_empty());
    assert_eq!(data.bundle, "");
    assert!(data.labels.is_empty());
    assert!(data.extensions.is_empty());
}

#[test]
fn container_drops_unparsable_spec() {
    let data = ContainerData::new(&prepare_request(Some(any_of(b"{not json".to_vec()))));
    assert!(data.spec.is_none());
    let none = ContainerData::new(&prepare_request(None));
    assert!(none.spec.is_none());
    assert_eq!(none.rootfs.len(), 1);
}

#[test]
fn process_parses_process_from_spec() {
    let process = serde_json::to_vec(&oci_spec::runtime::Process::default()).unwrap();
    let data = ProcessData::new(&prepare_request(Some(any_of(process))));
    assert_eq!(data.id, "e-1");
    assert!(data.process.is_some());
    assert_eq!(data.io.unwrap().stdout, "/out");
    assert!(data.extra.is_empty());
}

#[test]
fn process_drops_unparsable_process() {
    let data = ProcessData::new(&prepare_request(Some(any_of(b"[]".to_vec()))));
    assert!(data.process.is_none());
    let none = ProcessData::new(&prepare_request(None));
    assert!(none.process.is_none());
}

#[test]
fn timestamp_converts_both_ways() {
    let proto = prost_types::Timestamp { seconds: 1_700_000_000, nanos: 42 };
    let ts: Timestamp = proto.into();
    assert_eq!(ts.seconds, 1_700_000_000);
    assert_eq!(ts.nanos, 42);
    let back: prost_types::Timestamp = ts.into();
    assert_eq!(back.seconds, 1_700_000_000);
    assert_eq!(back.nanos, 42);
}

#[test]
fn any_converts_both_ways() {
    let proto = prost_types::Any { type_url: "t/x".to_string(), value: vec![1, 2, 3] };
    let any: Any = proto.into();
    assert_eq!(any.type_url, "t/x");
    assert_eq!(any.value, vec![1, 2, 3]);
    let back: prost_types::Any = any.into();
    assert_eq!(back.type_url, "t/x");
    assert_eq!(back.value, vec![1, 2, 3]);
}
