# upf-edge

A 5G User Plane Function with its PFCP control plane and an XDP-style data
plane, and an SMF simulator to drive it, written as a Verus library whose
behaviour is stated in contracts and proved.

## Layout

- `src/` — the verified library.
  - PFCP wire format: `bytes`, `header`, `ie`, `builder`, `messages`,
    `dict`, `roundtrip` (encode/decode round trips), `types`, `net`.
  - UPF control plane: `association` (per-SMF associations), `server`
    (message dispatch, heartbeats, keepalive), `session` (establishment,
    modification, deletion against the rule tables), `lifecycle` (laws that
    span requests), `dataplane` (rule tables and keys), `store` (session
    records), `usage` (usage counters and Session Report Requests),
    `config`, `setup`.
  - Data plane: `gtpu` (GTP-U/UDP/IPv4/Ethernet headers, checksum) and
    `xdp` (uplink decapsulation, downlink encapsulation).
  - SMF simulator: `sim_config`, `sim_state`, `sim_flow` (requests and what
    responses change), `validator`, and three state machines that the
    programs drive: `scenario` (the basic session lifecycle), `keepalive`
    (Heartbeats and re-association) and `exchange` (one request/response
    exchange with retries).
  - Consoles: `text`, `fmt`, `dump`, `upf_command`, `sim_command`,
    `console`, `tui_log`; `clock` holds the trusted clock readings.
- `tests/` — tests run against the compiled library.
- `app/` — the programs around the library (`upf-edge` and `smf-sim`
  subcommands): sockets, Redis, BPF maps, terminal UI, configuration files.
