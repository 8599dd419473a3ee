# FerroVault

A zero-trust ephemeral sandbox runtime for Linux, built from kernel primitives: namespaces,
`pivot_root`, cgroups v2, a sealed memfd that carries an identity, and a seccomp filter.

The decisions are a library in Verus under `src/`: which operation comes next, what follows each
answer of the system, what is printed, and how a process ends. `app/` performs the operations.

| Module | Holds |
|---|---|
| `process` | the whole program, as a machine from replies to operations |
| `manager`, `namespaces`, `payload` | the three kinds of processes |
| `identity`, `cgroup`, `rootfs` | the procedures that they go through |
| `system`, `step` | operations, replies, lines, and the steps of a procedure |
| `limits` | resource limits and the control files that carry them |
| `seccomp` | the system-call filter |
| `hex`, `text` | hexadecimal and decimal text |
| `course`, `laws` | what holds of every run |

`laws` is the place to start for what is promised: among others, that the identity is sealed
before anything is forked, that every descendant of the container process is born into the
cgroup, that no mount reaches the host, that procfs goes into the new, read-only root, that the
entrypoint runs behind all of these layers and the filter, and that the manager, and no other process, removes the
cgroup.

The filter allows the fifty-six calls of `seccomp::default_allowlist`. Which calls a shell makes
depends on the BusyBox build in the root file system: trace it with `strace -f`, once over a pipe
and once on a terminal, and adjust the list to it.
