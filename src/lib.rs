pub mod json;
pub mod text;
pub mod parser;
pub mod ui;
