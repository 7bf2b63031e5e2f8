pub mod code_page;
pub mod data;
pub mod error;
pub mod func_id;
pub mod grammar;
pub mod handlers;
pub mod laws;
pub mod loader;
pub mod opcodes;
pub mod parser;
pub mod slice;
pub mod text;
