# obscuravpn_client

The core of the Obscura VPN client as a Verus library: each function states what it does in
`requires` / `ensures`, and Verus proves it.

- `src/` is the library. Its main parts:
  - `ip_network`, `local_network`: IP networks, subtraction of networks, and the routes that send
    all traffic, or all but the local networks, through the tunnel.
  - `liveness`: probing the tunnel with ICMP echo requests and deciding when it is dead.
  - `tunnel_state`, `exit_selection`, `relay_selection`: the decisions of the task that keeps the
    tunnel in the state the user asks for, which exit to try next, which relays to race.
  - `quicwg`, `wg_control_message_header`, `os::packet_buffer`, `virt`: traffic accounting, packet
    queues and wire formats.
  - `linux`, `gui`, `os::windows::sddl`: IPC framing, status, tray menu, GUI navigation and command
    replies, and Windows access control strings.
  - `errors`, `manager_cmd`, `network_config`, `manager`, `debug_bundle`, `debug_archive`,
    `ui_config`, `dns`, `net`, `int_helper`, `wake_instant`: the types and small procedures that
    these share.
- `app/` is the ordinary Rust around it: clocks, the environment, logging, JSON forms of the
  library's types and async plumbing.
- `tests/` runs the library on concrete values.

Calls into outside crates (`etherparse`, `rand`, `nix`, `tokio`) and into parts of `std` that
Verus does not specify go through small trusted wrappers, each with a doc comment that says what
its contract claims of the call.
