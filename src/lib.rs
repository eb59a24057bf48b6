//! Decision and accounting logic of a sandboxed process executor.
//!
//! The executor runs an untrusted command inside fresh Linux namespaces and
//! reports its exit status, wall time, peak memory and whether it exceeded its
//! time limit. This library holds everything that decides or computes; the
//! system calls themselves are performed by the program around it.
pub mod decimal;
pub mod protocol;
pub mod accounting;
pub mod config;
pub mod sandbox;
pub mod tempname;
pub mod cgroup;
pub mod launch;
pub mod outer;
pub mod record;
