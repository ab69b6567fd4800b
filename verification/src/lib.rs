//! A runtime for coding work on remote machines: agents register and poll for work,
//! callers have commands and jobs run there, and tools tell what came of it.
pub mod cli_laws;
pub mod cut;
pub mod json;
pub mod json_text;
pub mod lines;
pub mod numbers;
pub mod order;
pub mod shell_client;
pub mod startup;
pub mod text;
pub mod text_laws;
pub mod text_map;
pub mod tool_runtime;
