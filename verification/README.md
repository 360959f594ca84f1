# gatekeeper

A simple HTTP reverse proxy built on pingora.

- `src/` is the verified library: the command-line configuration (`cmd::parser`),
  the per-request decisions (`server::proxy`: upstream connection settings, the
  `Host` override, the request filter) and the start-up decisions
  (`server::setup`: listener kind, health-check period). Each function states
  its result exactly in its `ensures`.
- `app/` is the program: clap parsing, the pingora server, load balancer,
  health check and the `ProxyHttp` hooks, each hook calling the library.
- `tests/` exercises the library's decisions on concrete configurations.
