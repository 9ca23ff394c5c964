pub mod trace_entry;
