//! Small facts about strings and the running system, for a host process.
//!
//! Three independent operations: a byte-exact suffix test on C strings, the
//! flag of a process that started with raised privileges, and the number of
//! logical processor cores, detected once and kept.
//!
//! The library works on plain values only. Raw pointers, the lock around a
//! process-wide cache and the query of the kernel's auxiliary vector belong to
//! the foreign-function layer that links against it.

pub mod cpu_count;
pub mod suffix;
pub mod taint;

pub use crate::cpu_count::CpuCountCache;
pub use crate::cpu_count::GetCpuCount;
pub use crate::suffix::endswith;
pub use crate::suffix::strlen;
pub use crate::taint::IsProcessTainted;
pub use crate::taint::SecureExecution;
