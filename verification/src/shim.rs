//! The decisions a shim makes while it boots and while it spawns its server
//! process.

use vstd::prelude::*;
use vstd::string::StrSliceExecFns;
use vstd::string::StringExecFns;

verus! {

/// The shim's settings.
#[derive(Clone, Copy, Debug)]
pub struct Config {
    /// Do not set up the logger.
    pub no_setup_logger: bool,
    /// Do not reap exited children (no SIGCHLD handling).
    pub no_reaper: bool,
    /// Do not become a child subreaper.
    pub no_sub_reaper: bool,
}

impl Default for Config {
    /// Every setting off.
    fn default() -> (r: Self)
        ensures
            !r.no_setup_logger,
            !r.no_reaper,
            !r.no_sub_reaper,
    {
        Config { no_setup_logger: false, no_reaper: false, no_sub_reaper: false }
    }
}

/// What a shim is asked to start with.
#[derive(Clone, Debug, Default)]
pub struct StartOpts {
    pub id: String,
    pub publish_binary: String,
    pub address: String,
    pub ttrpc_address: String,
    pub namespace: String,
    pub debug: bool,
}

/// What a shim invocation does.
#[derive(Clone, Copy, Debug, PartialEq, Eq, Structural)]
pub enum ShimAction {
    /// Launch the shim server process and print its address.
    Start,
    /// Clean up after a shim and print the delete response.
    Delete,
    /// Serve the task service until the shim is told to exit.
    Serve,
}

/// The action named by the command line's action word: `start`, `delete`,
/// or anything else, which serves.
pub open spec fn action_named(word: Seq<char>) -> ShimAction {
    if word == "start"@ {
        ShimAction::Start
    } else if word == "delete"@ {
        ShimAction::Delete
    } else {
        ShimAction::Serve
    }
}

/// What a shim does before and while running its action.
#[derive(Clone, Copy, Debug, PartialEq, Eq, Structural)]
pub struct BootPlan {
    /// Make this process a child subreaper first.
    pub set_subreaper: bool,
    /// Set up the logger before serving.
    pub setup_logger: bool,
    /// The action to run.
    pub action: ShimAction,
}

/// The boot plan for `config` and the action word: become a subreaper unless
/// that is turned off, and set up the logger only when serving and unless
/// that is turned off.
pub open spec fn plan_of(config: Config, word: Seq<char>) -> BootPlan {
    BootPlan {
        set_subreaper: !config.no_sub_reaper,
        setup_logger: action_named(word) == ShimAction::Serve && !config.no_setup_logger,
        action: action_named(word),
    }
}

/// The action the action word names.
pub fn shim_action(word: &String) -> (r: ShimAction)
    ensures
        r == action_named(word@),
        word@ == "start"@ ==> r == ShimAction::Start,
        word@ == "delete"@ ==> r == ShimAction::Delete,
        word@ != "start"@ && word@ != "delete"@ ==> r == ShimAction::Serve,
{
    proof {
        law_action_words(word@);
    }
    if *word == String::from_str("start") {
        ShimAction::Start
    } else if *word == String::from_str("delete") {
        ShimAction::Delete
    } else {
        ShimAction::Serve
    }
}

/// What a shim does at boot under `config` for the action word.
pub fn boot_plan(config: &Config, word: &String) -> (r: BootPlan)
    ensures
        r == plan_of(*config, word@),
        r.set_subreaper == !config.no_sub_reaper,
        r.action == action_named(word@),
        r.setup_logger == (r.action == ShimAction::Serve && !config.no_setup_logger),
{
    let action = shim_action(word);
    BootPlan {
        set_subreaper: !config.no_sub_reaper,
        setup_logger: action == ShimAction::Serve && !config.no_setup_logger,
        action,
    }
}

/// The arguments a shim passes to the server process it spawns: its
/// namespace, id and containerd address, and `-debug` when debugging.
pub open spec fn server_args(opts: StartOpts) -> Seq<Seq<char>> {
    seq!["-namespace"@, opts.namespace@, "-id"@, opts.id@, "-address"@, opts.address@] + if opts.debug {
        seq!["-debug"@]
    } else {
        Seq::<Seq<char>>::empty()
    }
}

/// The arguments of the spawned server process.
pub fn shim_args(opts: &StartOpts) -> (r: Vec<String>)
    ensures
        r@.map_values(|s: String| s@) == server_args(*opts),
        r@.len() == if opts.debug { 7int } else { 6int },
        r@[0]@ == "-namespace"@,
        r@[1]@ == opts.namespace@,
        r@[2]@ == "-id"@,
        r@[3]@ == opts.id@,
        r@[4]@ == "-address"@,
        r@[5]@ == opts.address@,
        opts.debug ==> r@[6]@ == "-debug"@,
{
    let mut args: Vec<String> = Vec::new();
    args.push(String::from_str("-namespace"));
    args.push(opts.namespace.clone());
    args.push(String::from_str("-id"));
    args.push(opts.id.clone());
    args.push(String::from_str("-address"));
    args.push(opts.address.clone());
    if opts.debug {
        args.push(String::from_str("-debug"));
    }
    assert(args@.map_values(|s: String| s@) =~= server_args(*opts));
    proof {
        law_server_args_carry_the_options(*opts);
        assert(args@.map_values(|s: String| s@).len() == args@.len());
        assert forall|i: int| 0 <= i < args@.len() implies #[trigger] args@[i]@ == server_args(
            *opts,
        )[i] by {
            assert(args@.map_values(|s: String| s@)[i] == args@[i]@);
        }
    }
    args
}

/// How long to wait between two probes of an existing socket, in ms.
pub const SOCKET_PROBE_INTERVAL_MS: u64 = 5;

/// How many times to probe an existing socket before giving up on it.
pub const SOCKET_PROBE_ATTEMPTS: u32 = 200;

/// What to do when the server socket cannot be bound.
#[derive(Clone, Copy, Debug, PartialEq, Eq, Structural)]
pub enum ListenerRecovery {
    /// Report the error.
    Fail,
    /// Probe the socket already at the address: reuse it if a server
    /// answers, else remove it and bind again.
    ProbeExisting,
}

/// The recovery from a failure to bind the server socket: an I/O error other
/// than "address in use" is reported; any other failure probes the socket
/// already there.
pub fn listener_recovery(is_io_error: bool, addr_in_use: bool) -> (r: ListenerRecovery)
    ensures
        r == (if is_io_error && !addr_in_use {
            ListenerRecovery::Fail
        } else {
            ListenerRecovery::ProbeExisting
        }),
{
    if is_io_error && !addr_in_use {
        ListenerRecovery::Fail
    } else {
        ListenerRecovery::ProbeExisting
    }
}

/// The progress of probing a socket: how many connection attempts are left.
pub struct SocketWait {
    remaining: u32,
}

impl SocketWait {
    /// The attempts still allowed.
    pub closed spec fn left(self) -> nat {
        self.remaining as nat
    }

    /// A probe that allows `count` attempts.
    pub fn new(count: u32) -> (r: SocketWait)
        ensures
            r.left() == count,
    {
        SocketWait { remaining: count }
    }

    /// Whether another connection attempt is allowed; when none is, the
    /// probe has timed out.
    pub fn should_attempt(&self) -> (r: bool)
        ensures
            r == (self.left() > 0),
    {
        self.remaining > 0
    }

    /// Records a failed attempt (the caller sleeps for the probe interval).
    pub fn attempt_failed(&mut self)
        requires
            old(self).left() > 0,
        ensures
            final(self).left() == old(self).left() - 1,
    {
        self.remaining = self.remaining - 1;
    }
}

/// The file system path of a socket address: the address without its
/// `unix://` scheme when it has one, the address itself otherwise.
pub open spec fn sockaddr_path(addr: Seq<char>) -> Seq<char> {
    if addr.len() >= 7 && addr.subrange(0, 7) == "unix://"@ {
        addr.subrange(7, addr.len() as int)
    } else {
        addr
    }
}

/// The file system path of the socket at `addr`.
pub fn parse_sockaddr(addr: &str) -> (r: &str)
    ensures
        r@ == sockaddr_path(addr@),
{
    proof {
        reveal_strlit("unix://");
    }
    let n = addr.unicode_len();
    if n >= 7 {
        let scheme = addr.substring_char(0, 7);
        if String::from_str(scheme) == String::from_str("unix://") {
            return addr.substring_char(7, n);
        }
    }
    addr
}

/// The action word alone picks the action: `start` starts, `delete`
/// deletes, and every other word serves.
pub proof fn law_action_words(word: Seq<char>)
    ensures
        (action_named(word) == ShimAction::Start) <==> word == "start"@,
        (action_named(word) == ShimAction::Delete) <==> word == "delete"@,
        (action_named(word) == ShimAction::Serve) <==> (word != "start"@ && word != "delete"@),
{
    reveal_strlit("start");
    reveal_strlit("delete");
    assert("start"@ != "delete"@) by {
        assert("start"@[0] != "delete"@[0]);
    }
}

/// Whether a shim becomes a subreaper depends on its settings only, never
/// on the action: it does unless that is turned off, for every action word.
pub proof fn law_subreaper_regardless_of_action(config: Config, w1: Seq<char>, w2: Seq<char>)
    ensures
        plan_of(config, w1).set_subreaper == !config.no_sub_reaper,
        plan_of(config, w1).set_subreaper == plan_of(config, w2).set_subreaper,
{
}

/// The logger is set up only for serving, and always for serving unless
/// that is turned off; starting and deleting never set it up.
pub proof fn law_logger_only_when_serving(config: Config, word: Seq<char>)
    ensures
        plan_of(config, word).setup_logger ==> plan_of(config, word).action == ShimAction::Serve,
        plan_of(config, word).action == ShimAction::Serve && !config.no_setup_logger
            ==> plan_of(config, word).setup_logger,
        config.no_setup_logger ==> !plan_of(config, word).setup_logger,
{
}

/// The server is passed the shim's namespace, id and containerd address in
/// full, each right after its flag, and `-debug` last exactly when
/// debugging.
pub proof fn law_server_args_carry_the_options(opts: StartOpts)
    ensures
        server_args(opts).len() == if opts.debug { 7int } else { 6int },
        server_args(opts)[0] == "-namespace"@,
        server_args(opts)[1] == opts.namespace@,
        server_args(opts)[2] == "-id"@,
        server_args(opts)[3] == opts.id@,
        server_args(opts)[4] == "-address"@,
        server_args(opts)[5] == opts.address@,
        opts.debug ==> server_args(opts)[6] == "-debug"@,
{
}

/// A `unix://` address names the path after the scheme; any other address
/// is a path already. The path is always a suffix of the address.
pub proof fn law_sockaddr_path(addr: Seq<char>, path: Seq<char>)
    ensures
        sockaddr_path("unix://"@ + path) == path,
        !(addr.len() >= 7 && addr.subrange(0, 7) == "unix://"@) ==> sockaddr_path(addr) == addr,
        sockaddr_path(addr) == addr.subrange(
            addr.len() - sockaddr_path(addr).len(),
            addr.len() as int,
        ),
{
    reveal_strlit("unix://");
    let a = "unix://"@ + path;
    assert(a.subrange(0, 7) =~= "unix://"@);
    assert(a.subrange(7, a.len() as int) =~= path);
    assert(addr.subrange(0, addr.len() as int) =~= addr);
}

} // verus!
