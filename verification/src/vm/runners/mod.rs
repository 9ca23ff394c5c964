pub mod builtin_runner;
pub mod cairo_runner;
