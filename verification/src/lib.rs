//! FerroVault: the decisions of a small Linux sandbox runtime.
//!
//! The runtime is a program of three kinds of processes: the manager, the container process
//! that it forks, and the process that this one forks into a new PID namespace and that becomes
//! the entrypoint. The library decides, and a driver performs: [`process::Process`] says which
//! [`system::Operation`] comes next, takes the [`system::Reply`] to it, and says what is printed
//! and where the process goes on. The procedures that it is made of have modules of their own.
//! [`laws`] states what holds of every run, whatever the system answers, and [`outcomes`] what
//! each answer leads to.

pub mod cgroup;
pub mod course;
pub mod hex;
pub mod identity;
pub mod laws;
pub mod limits;
pub mod manager;
pub mod namespaces;
pub mod outcomes;
pub mod payload;
pub mod process;
pub mod rootfs;
pub mod seccomp;
pub mod step;
pub mod system;
pub mod text;
