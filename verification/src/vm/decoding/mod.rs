pub mod decoder;
