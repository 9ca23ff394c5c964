pub mod run_context;
