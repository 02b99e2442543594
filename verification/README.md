# sandbox

A small Linux sandbox: it forks into new user, mount, PID, UTS and IPC
namespaces, maps the host user onto uid/gid 1000, builds a fresh root on a
`tmpfs` that exposes selected host paths through bind mounts, pivots into it
and starts a shell.

The library (`src/`, verified with Verus) decides what each process of the
sandbox does, as plain steps with exact contracts:

- `paths`, `text`: joining paths and writing numbers in decimal;
- `steps`: the setup steps (mounts, directories, files, links, pivot) and
  the mount flags, as plain values;
- `setup`: the steps that build the new root (`create_root`, `create_dev`,
  `create_sys`) and the expansion of steps that depend on the host
  (`bind_mount`, `bind_if_present`, `home_bind_source`);
- `launch`: the whole sequence of entering the new root, the identity maps,
  the handshake between the map writer and the sandboxed process, and the
  change of user before the shell;
- `reaper`: the state machine that reaps children and picks the exit code;
- `plan_laws`: proofs of properties of the plan as a whole.

The launcher (`app/`) forks, creates the pipes, performs the steps the
library gives (unshare, mounts, file writes, capability drops, `exec`), and
feeds what it waits for into the reaper.
