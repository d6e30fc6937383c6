//! Turn loop and response protocol of an interactive coding assistant:
//! scanning of completion text, extraction of tool calls and final answers,
//! rules of the file tools, and the state machine that drives one turn.

pub mod agent;
pub mod codec;
pub mod conversation;
pub mod extractor;
pub mod json;
pub mod parser;
pub mod text;
pub mod tools;
