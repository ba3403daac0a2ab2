//! Records that a sandbox controller keeps about sandboxes, containers and
//! processes, and how they are built from the requests that create them.

use std::collections::HashMap;
use std::time::SystemTime;
use k8s_cri::v1::PodSandboxConfig;
use oci_spec::runtime::Process as OciProcess;
use oci_spec::runtime::Spec as OciSpec;
use prost_types::Any as ProstAny;
use prost_types::Timestamp as ProstTimestamp;
use vstd::prelude::*;

verus! {

#[verifier::external_type_specification]
#[verifier::external_body]
pub struct ExPodSandboxConfig(PodSandboxConfig);

#[verifier::external_type_specification]
#[verifier::external_body]
pub struct ExOciSpec(OciSpec);

#[verifier::external_type_specification]
#[verifier::external_body]
pub struct ExOciProcess(OciProcess);

#[verifier::external_type_specification]
#[verifier::external_body]
pub struct ExSystemTime(std::time::SystemTime);

#[verifier::external_type_specification]
#[verifier::external_body]
pub struct ExProtoTimestamp(ProstTimestamp);

#[verifier::external_type_specification]
#[verifier::external_body]
pub struct ExProtoAny(ProstAny);

/// Whether `bytes` is the protobuf encoding of a CRI `PodSandboxConfig`.
pub uninterp spec fn decodes_as_pod_sandbox_config(bytes: Seq<u8>) -> bool;

/// Whether `bytes` is a JSON document that deserializes into an OCI runtime spec.
pub uninterp spec fn parses_as_json_spec(bytes: Seq<u8>) -> bool;

/// Whether `bytes` is a JSON document that deserializes into an OCI process.
pub uninterp spec fn parses_as_json_process(bytes: Seq<u8>) -> bool;

/// Decodes a `PodSandboxConfig` with `prost::Message::decode`.
/// Trusted: the result is present exactly when prost accepts the bytes
/// as an encoding of the message. Which message comes out is left unsaid:
/// its `labels` and `annotations` are `HashMap`s whose `RandomState` is
/// seeded anew for each map, so two decodings of the same bytes give
/// different values, and no name of the bytes can stand for the result.
#[verifier::external_body]
fn decode_pod_sandbox_config(bytes: &[u8]) -> (r: Option<PodSandboxConfig>)
    ensures
        r.is_some() == decodes_as_pod_sandbox_config(bytes@),
{
    <PodSandboxConfig as prost::Message>::decode(bytes).ok()
}

/// Deserializes an OCI runtime spec with `serde_json::from_slice`.
/// Trusted: the result is present exactly when serde_json accepts the bytes.
/// Which spec comes out is left unsaid: its `annotations` (and the
/// capability sets of its process) are hash collections seeded anew for
/// each value, so two parses of the same bytes give different values, and no
/// name of the bytes can stand for the result.
#[verifier::external_body]
fn parse_json_spec(bytes: &[u8]) -> (r: Option<OciSpec>)
    ensures
        r.is_some() == parses_as_json_spec(bytes@),
{
    serde_json::from_slice::<OciSpec>(bytes).ok()
}

/// Deserializes an OCI process with `serde_json::from_slice`.
/// Trusted: the result is present exactly when serde_json accepts the bytes.
/// Which process comes out is left unsaid: its capability sets are
/// `HashSet`s seeded anew for each value, so two parses of the same bytes
/// give different values, and no name of the bytes can stand for the result.
#[verifier::external_body]
fn parse_json_process(bytes: &[u8]) -> (r: Option<OciProcess>)
    ensures
        r.is_some() == parses_as_json_process(bytes@),
{
    serde_json::from_slice::<OciProcess>(bytes).ok()
}

/// Reads the system clock with `SystemTime::now`. Nothing is stated of the
/// instant it returns.
#[verifier::external_body]
fn system_now() -> SystemTime {
    SystemTime::now()
}

/// A protobuf `Timestamp`: seconds and nanoseconds since the Unix epoch.
#[derive(Debug, Clone, Default)]
pub struct Timestamp {
    pub seconds: i64,
    pub nanos: i32,
}

impl From<ProstTimestamp> for Timestamp {
    /// Moves the two fields of a prost `Timestamp` over unchanged.
    #[verifier::external_body]
    fn from(from: ProstTimestamp) -> Self {
        Self { seconds: from.seconds, nanos: from.nanos }
    }
}

impl From<Timestamp> for ProstTimestamp {
    /// Moves the two fields into a prost `Timestamp` unchanged.
    #[verifier::external_body]
    fn from(from: Timestamp) -> Self {
        Self { seconds: from.seconds, nanos: from.nanos }
    }
}

/// A protobuf `Any`: a type URL and the encoded message.
#[derive(Debug, Clone, Default)]
pub struct Any {
    pub type_url: String,
    pub value: Vec<u8>,
}

impl From<ProstAny> for Any {
    /// Moves the two fields of a prost `Any` over unchanged.
    #[verifier::external_body]
    fn from(proto: ProstAny) -> Self {
        Self { type_url: proto.type_url, value: proto.value }
    }
}

impl From<Any> for ProstAny {
    /// Moves the two fields into a prost `Any` unchanged.
    #[verifier::external_body]
    fn from(any: Any) -> Self {
        Self { type_url: any.type_url, value: any.value }
    }
}

/// A mount as a request carries it (containerd `types.Mount`).
#[derive(Debug, Clone, Default)]
pub struct RootfsMount {
    pub mount_type: String,
    pub source: String,
    pub target: String,
    pub options: Vec<String>,
}

/// A mount of a container's root file system, in OCI form.
#[derive(Debug, Clone, Default)]
pub struct Mount {
    pub destination: String,
    pub mount_type: String,
    pub source: String,
    pub options: Vec<String>,
}

/// The standard streams of a container or process.
#[derive(Debug, Clone, Default)]
pub struct Io {
    pub stdin: String,
    pub stdout: String,
    pub stderr: String,
    pub terminal: bool,
}

/// A request to create a sandbox.
#[derive(Debug, Clone, Default)]
pub struct ControllerCreateRequest {
    pub sandbox_id: String,
    pub rootfs: Vec<RootfsMount>,
    pub options: Option<Any>,
    pub netns_path: String,
}

/// A request to prepare a container, or a process in one, in a sandbox.
#[derive(Debug, Clone, Default)]
pub struct PrepareRequest {
    pub sandbox_id: String,
    pub container_id: String,
    pub exec_id: String,
    pub spec: Option<Any>,
    pub rootfs: Vec<RootfsMount>,
    pub stdin: String,
    pub stdout: String,
    pub stderr: String,
    pub terminal: bool,
}

/// What is known about a sandbox.
#[derive(Debug, Clone, Default)]
pub struct SandboxData {
    pub id: String,
    pub spec: Option<OciSpec>,
    pub config: Option<PodSandboxConfig>,
    pub netns: String,
    pub task_address: String,
    pub labels: HashMap<String, String>,
    pub created_at: Option<SystemTime>,
    pub started_at: Option<SystemTime>,
    pub exited_at: Option<SystemTime>,
    pub extensions: HashMap<String, Any>,
}

/// What is known about a container in a sandbox.
#[derive(Debug, Clone, Default)]
pub struct ContainerData {
    pub id: String,
    pub spec: Option<OciSpec>,
    pub rootfs: Vec<Mount>,
    pub io: Option<Io>,
    pub processes: Vec<ProcessData>,
    pub bundle: String,
    pub labels: HashMap<String, String>,
    pub extensions: HashMap<String, Any>,
}

/// What is known about an extra process in a container.
#[derive(Debug, Clone, Default)]
pub struct ProcessData {
    pub id: String,
    pub io: Option<Io>,
    pub process: Option<OciProcess>,
    pub extra: HashMap<String, Any>,
}

/// The OCI mount that a request mount describes: its target becomes the
/// destination, the rest is kept.
pub open spec fn mount_of(m: RootfsMount) -> (Seq<char>, Seq<char>, Seq<char>, Seq<Seq<char>>) {
    (m.target@, m.mount_type@, m.source@, m.options@.map_values(|o: String| o@))
}

impl Mount {
    /// The mount's fields, each by its view.
    pub open spec fn fields(self) -> (Seq<char>, Seq<char>, Seq<char>, Seq<Seq<char>>) {
        (self.destination@, self.mount_type@, self.source@, self.options@.map_values(|o: String| o@))
    }

    /// Converts a request mount into an OCI mount.
    pub fn from_rootfs(m: &RootfsMount) -> (r: Mount)
        ensures
            r.fields() == mount_of(*m),
            r.destination@ == m.target@,
            r.mount_type@ == m.mount_type@,
            r.source@ == m.source@,
            r.options@.len() == m.options@.len(),
            forall|i: int| 0 <= i < m.options@.len() ==> #[trigger] r.options@[i]@ == m.options@[i]@,
    {
        let options = clone_strings(&m.options);
        let r = Mount {
            destination: m.target.clone(),
            mount_type: m.mount_type.clone(),
            source: m.source.clone(),
            options,
        };
        assert(r.options@.map_values(|o: String| o@) =~= m.options@.map_values(|o: String| o@));
        r
    }
}

/// A copy of a list of strings.
fn clone_strings(v: &Vec<String>) -> (r: Vec<String>)
    ensures
        r@.len() == v@.len(),
        forall|i: int| 0 <= i < v@.len() ==> #[trigger] r@[i]@ == v@[i]@,
{
    let mut r: Vec<String> = Vec::new();
    let mut i: usize = 0;
    while i < v.len()
        invariant
            i <= v@.len(),
            r@.len() == i,
            forall|j: int| 0 <= j < i ==> #[trigger] r@[j]@ == v@[j]@,
        decreases v@.len() - i,
    {
        r.push(v[i].clone());
        i = i + 1;
    }
    r
}

/// The request's streams, as the `Io` of what it prepares.
pub open spec fn io_of(req: PrepareRequest, io: Io) -> bool {
    &&& io.stdin@ == req.stdin@
    &&& io.stdout@ == req.stdout@
    &&& io.stderr@ == req.stderr@
    &&& io.terminal == req.terminal
}

fn io_from(req: &PrepareRequest) -> (r: Io)
    ensures
        io_of(*req, r),
{
    Io {
        stdin: req.stdin.clone(),
        stdout: req.stdout.clone(),
        stderr: req.stderr.clone(),
        terminal: req.terminal,
    }
}

impl SandboxData {
    /// Builds the record of a new sandbox from its create request, the
    /// configuration decoded from the request's options, and the instant of
    /// creation.
    pub fn assemble(
        req: &ControllerCreateRequest,
        config: Option<PodSandboxConfig>,
        created_at: SystemTime,
    ) -> (r: SandboxData)
        ensures
            r.id@ == req.sandbox_id@,
            r.spec.is_none(),
            r.config == config,
            r.netns@ == req.netns_path@,
            r.task_address@ == Seq::<char>::empty(),
            r.labels@ == Map::<String, String>::empty(),
            r.created_at == Some(created_at),
            r.started_at.is_none(),
            r.exited_at.is_none(),
            r.extensions@ == Map::<String, Any>::empty(),
    {
        SandboxData {
            id: req.sandbox_id.clone(),
            spec: None,
            config,
            netns: req.netns_path.clone(),
            task_address: String::new(),
            labels: HashMap::new(),
            created_at: Some(created_at),
            started_at: None,
            exited_at: None,
            extensions: HashMap::new(),
        }
    }

    /// Builds the record of a new sandbox from its create request: the
    /// sandbox configuration is decoded from the request's options where
    /// they hold one, and the creation instant is the current time. Which
    /// configuration is stored is stated only through `assemble`, which
    /// keeps the one it is given (see `decode_pod_sandbox_config`).
    pub fn new(req: &ControllerCreateRequest) -> (r: SandboxData)
        ensures
            r.id@ == req.sandbox_id@,
            r.spec.is_none(),
            r.config.is_some() == (req.options.is_some()
                && decodes_as_pod_sandbox_config(req.options.unwrap().value@)),
            r.netns@ == req.netns_path@,
            r.task_address@ == Seq::<char>::empty(),
            r.labels@ == Map::<String, String>::empty(),
            r.created_at.is_some(),
            r.started_at.is_none(),
            r.exited_at.is_none(),
            r.extensions@ == Map::<String, Any>::empty(),
    {
        let config = match &req.options {
            Some(x) => decode_pod_sandbox_config(x.value.as_slice()),
            None => None,
        };
        SandboxData::assemble(req, config, system_now())
    }
}

impl ContainerData {
    /// Builds the record of a new container from its prepare request and the
    /// spec decoded from the request.
    pub fn assemble(req: &PrepareRequest, spec: Option<OciSpec>) -> (r: ContainerData)
        ensures
            r.id@ == req.container_id@,
            r.spec == spec,
            r.rootfs@.len() == req.rootfs@.len(),
            forall|i: int| 0 <= i < req.rootfs@.len()
                ==> #[trigger] r.rootfs@[i].fields() == mount_of(req.rootfs@[i]),
            forall|i: int|
                #![trigger r.rootfs@[i]]
                0 <= i < req.rootfs@.len() ==> r.rootfs@[i].destination@ == req.rootfs@[i].target@
                    && r.rootfs@[i].mount_type@ == req.rootfs@[i].mount_type@
                    && r.rootfs@[i].source@ == req.rootfs@[i].source@,
            r.io.is_some() && io_of(*req, r.io.unwrap()),
            r.io matches Some(io) && io.stdin@ == req.stdin@ && io.stdout@ == req.stdout@
                && io.stderr@ == req.stderr@ && io.terminal == req.terminal,
            r.processes@.len() == 0,
            r.bundle@ == Seq::<char>::empty(),
            r.labels@ == Map::<String, String>::empty(),
            r.extensions@ == Map::<String, Any>::empty(),
    {
        let mut rootfs: Vec<Mount> = Vec::new();
        let mut i: usize = 0;
        while i < req.rootfs.len()
            invariant
                i <= req.rootfs@.len(),
                rootfs@.len() == i,
                forall|j: int| 0 <= j < i ==> #[trigger] rootfs@[j].fields() == mount_of(req.rootfs@[j]),
                forall|j: int|
                    #![trigger rootfs@[j]]
                    0 <= j < i ==> rootfs@[j].destination@ == req.rootfs@[j].target@
                        && rootfs@[j].mount_type@ == req.rootfs@[j].mount_type@
                        && rootfs@[j].source@ == req.rootfs@[j].source@,
            decreases req.rootfs@.len() - i,
        {
            rootfs.push(Mount::from_rootfs(&req.rootfs[i]));
            i = i + 1;
        }
        ContainerData {
            id: req.container_id.clone(),
            spec,
            rootfs,
            io: Some(io_from(req)),
            processes: Vec::new(),
            bundle: String::new(),
            labels: HashMap::new(),
            extensions: HashMap::new(),
        }
    }

    /// Builds the record of a new container from its prepare request: the
    /// spec is deserialized from the request's spec payload where it holds
    /// one, the root file system mounts are converted one by one, and the
    /// streams are taken from the request. Which spec is stored is stated
    /// only through `assemble` (see `parse_json_spec`).
    pub fn new(req: &PrepareRequest) -> (r: ContainerData)
        ensures
            r.id@ == req.container_id@,
            r.spec.is_some() == (req.spec.is_some() && parses_as_json_spec(req.spec.unwrap().value@)),
            r.rootfs@.len() == req.rootfs@.len(),
            forall|i: int| 0 <= i < req.rootfs@.len()
                ==> #[trigger] r.rootfs@[i].fields() == mount_of(req.rootfs@[i]),
            forall|i: int|
                #![trigger r.rootfs@[i]]
                0 <= i < req.rootfs@.len() ==> r.rootfs@[i].destination@ == req.rootfs@[i].target@
                    && r.rootfs@[i].mount_type@ == req.rootfs@[i].mount_type@
                    && r.rootfs@[i].source@ == req.rootfs@[i].source@,
            r.io.is_some() && io_of(*req, r.io.unwrap()),
            r.io matches Some(io) && io.stdin@ == req.stdin@ && io.stdout@ == req.stdout@
                && io.stderr@ == req.stderr@ && io.terminal == req.terminal,
            r.processes@.len() == 0,
            r.bundle@ == Seq::<char>::empty(),
            r.labels@ == Map::<String, String>::empty(),
            r.extensions@ == Map::<String, Any>::empty(),
    {
        let spec = match &req.spec {
            Some(x) => parse_json_spec(x.value.as_slice()),
            None => None,
        };
        ContainerData::assemble(req, spec)
    }
}

impl ProcessData {
    /// Builds the record of a new process from its prepare request and the
    /// process description decoded from the request.
    pub fn assemble(req: &PrepareRequest, process: Option<OciProcess>) -> (r: ProcessData)
        ensures
            r.id@ == req.exec_id@,
            r.io.is_some() && io_of(*req, r.io.unwrap()),
            r.io matches Some(io) && io.stdin@ == req.stdin@ && io.stdout@ == req.stdout@
                && io.stderr@ == req.stderr@ && io.terminal == req.terminal,
            r.process == process,
            r.extra@ == Map::<String, Any>::empty(),
    {
        ProcessData { id: req.exec_id.clone(), io: Some(io_from(req)), process, extra: HashMap::new() }
    }

    /// Builds the record of a new process from its prepare request: the
    /// process is deserialized from the request's spec payload where it
    /// holds one, and the streams are taken from the request. Which process
    /// is stored is stated only through `assemble` (see `parse_json_process`).
    pub fn new(req: &PrepareRequest) -> (r: ProcessData)
        ensures
            r.id@ == req.exec_id@,
            r.io.is_some() && io_of(*req, r.io.unwrap()),
            r.io matches Some(io) && io.stdin@ == req.stdin@ && io.stdout@ == req.stdout@
                && io.stderr@ == req.stderr@ && io.terminal == req.terminal,
            r.process.is_some() == (req.spec.is_some() && parses_as_json_process(
                req.spec.unwrap().value@,
            )),
            r.extra@ == Map::<String, Any>::empty(),
    {
        let process = match &req.spec {
            Some(x) => parse_json_process(x.value.as_slice()),
            None => None,
        };
        ProcessData::assemble(req, process)
    }
}

} // verus!
