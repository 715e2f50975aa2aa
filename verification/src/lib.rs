//! A minimal line-oriented command interpreter: lines of input are read from
//! a pluggable source, split into whitespace-delimited tokens, and handed to
//! the driver as commands to launch as external programs.

pub mod config;
pub mod driver;
pub mod errors;
pub mod executor;
pub mod source;
pub mod tokenizer;
