pub mod memory;
pub mod memory_segments;
