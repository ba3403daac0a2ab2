# shim_core

The verified core of a containerd shim and sandbox controller.

- `src/data.rs`: the records kept about sandboxes, containers and processes,
  and how they are built from create and prepare requests.
- `src/monitor.rs`: the exit monitor (subscribe, unsubscribe, and the
  deliveries that report a pid or exec exit), with its invariant and laws.
- `src/signals.rs`: which signals are watched and what each one triggers.
- `src/shim.rs`: boot decisions, the spawned server's arguments, socket
  addresses, and the recovery from a busy socket.
- `src/utils.rs`: where a file is staged before it is renamed into place.
- `src/publisher.rs`: the envelope an event is forwarded in.
- `app/`: the asynchronous and I/O side: the process-wide monitor, file
  helpers, signal loop, and spawning.

## Outside types

The sandbox configuration is the CRI `PodSandboxConfig` of the `k8s-cri`
crate, decoded with `prost`; the container spec and process are the OCI
`Spec` and `Process` of the `oci-spec` crate, parsed with `serde_json`. The
request messages and the mount types are defined here with the fields the
records are built from.

## Not here

The shim entry point (`run` and the boot sequence around the boot plan), the
`Shim` trait, and the remote event publisher talk to containerd over ttrpc
through `containerd-shim-protos`, which this crate does not depend on; they
are left out, and so is the runc shim's `main`. `app/` probes a socket with a
plain Unix connection, and `spawn` takes the socket address it is to use.
`async-trait` is listed among the dependencies but not used.
