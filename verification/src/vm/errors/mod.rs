pub mod memory_errors;
pub mod runner_errors;
pub mod trace_errors;
pub mod vm_errors;
