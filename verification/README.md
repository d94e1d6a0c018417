# safenode_service

The decisions of a network node's service tooling, verified with Verus:

- `src/registry.rs`, `src/service.rs`, `src/node.rs`: the node manager's registry
  of services, node records, their initialization from what a running node
  reports, the node's port, and the stored form of peer ids.
- `src/daemon.rs`: the manager daemon's restart requests, from the loaded
  registry to the plan of the restart and the replies.
- `src/log_output.rs`, `src/identity.rs`, `src/node_run.rs`, `src/paths.rs`: the
  node program's options, logging set-up, identity and key file, directories,
  run-loop and Windows-service decisions.
- `src/ui.rs`: the client's feedback texts.
- `src/peer_id.rs`, `src/multiaddr.rs`: peer ids and addresses as plain values.

`app/` holds what touches files, the terminal, JSON and the command line, and
calls the library for the decisions it makes. It has no drivers for the node
itself, the daemon's gRPC server or the Windows service: the networking and
node crates they need are not dependencies here, so the restart and RPC steps
are reached through the traits `DaemonControl` and `RpcActions`, which nothing
here implements.
