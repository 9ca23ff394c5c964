pub mod execute_hint;
pub mod hint_utils;
