pub mod parse;
pub mod text;
