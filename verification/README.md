# resip

A command-line tool that manages this proxy chain:

```text
Local Clash -> 127.0.0.1:7891 -> SSH tunnel -> remote 127.0.0.1:7890 -> internet
```

The library under `src/` holds the tool's logic with Verus contracts and
proofs:

- `config`, `state`: the saved configuration and tunnel record, their
  defaults and file locations, and SSH port parsing.
- `clash`: the Clash configuration that routes all traffic through the tunnel.
- `tunnel`: the SSH command line, the recorded state of a started tunnel, and
  `tunnel::control`, the decisions of `resip on` (`TunnelStart`) and
  `resip off` (`stop_step`), both state machines, and the single looks of
  the background supervisor and of the waits for a forward.
- `tunnel::process`: recognising the SSH process behind a recorded PID.
- `autostart`: the launchd, systemd and Windows `Run` entries.
- `support`: string primitives (`text`), home-relative paths and generated
  file names (`path`), prompt answers (`prompt`), and the platform directories
  and path operations that come from outside the library (`dirs`). Each
  path function that reads the home directory has a companion that takes
  the home directory (or the platform's answers) as an argument and states
  exactly what comes back. Paths are handled as text; a directory name that
  is not valid UTF-8 is converted lossily.

`app/` is the program around it: command-line parsing, files, processes,
sockets, the HTTP test and the loops that feed the library's state machines.
