pub mod charset;
pub mod compose;
pub mod config;
pub mod generate;
