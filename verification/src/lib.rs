//! Diagnostic library for probing a process's open-file-descriptor limit.
//!
//! The library answers three questions about the running process: what limit
//! the live system-configuration interface advertises, what limit the
//! resource-limit interface enforces, and how many descriptors the kernel
//! actually grants before refusing further allocations. All decision logic
//! is verified; each operating-system call stands behind a small trusted
//! wrapper in [`sys`].

mod sys;

pub mod census;
pub mod exhaust;
pub mod limits;
pub mod run;
pub mod text;
