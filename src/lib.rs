pub mod flavor;
pub mod options;
pub mod parser;
mod text;
