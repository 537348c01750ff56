//! Staging and packaging engine: a private temporary workspace in which
//! generated files are written and external tools are run, and the rules
//! that decide where a rendered book goes.
pub mod command;
pub mod dispatch;
pub mod error;
pub mod paths;
pub mod zipper;
