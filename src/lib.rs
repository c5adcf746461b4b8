pub mod engine;
pub mod natural;
pub mod parse;
pub mod laws;
