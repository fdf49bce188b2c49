pub mod builtins;
pub mod decimal;
pub mod error;
pub mod exec;
pub mod lexer;
pub mod parser;
pub mod proc;
pub mod shell;
pub mod strutil;
mod sys;
