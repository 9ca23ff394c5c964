pub mod context;
pub mod decoding;
pub mod errors;
pub mod hints;
pub mod output;
pub mod runners;
pub mod trace;
pub mod vm_core;
pub mod vm_memory;
