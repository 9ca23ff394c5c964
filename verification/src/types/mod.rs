pub mod field_int;
pub mod instruction;
pub mod program;
pub mod relocatable;
