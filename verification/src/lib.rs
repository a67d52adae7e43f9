//! A minimal interactive shell over a fixed set of filesystem commands:
//! one read-eval-print loop, a whitespace tokenizer, a dispatch table from
//! command name to handler, and a structured error type with its
//! diagnostic rendering. The decisions of the loop and of every handler
//! are verified here on plain values; the reading, printing and
//! filesystem calls themselves stand in the surrounding program.

pub mod command;
pub mod datetime;
pub mod error;
pub mod grep;
pub mod handlers;
pub mod history;
pub mod repl;
pub mod text;
pub mod tokenize;
pub mod usage;
