//! Boundary layer between external callers and a stylesheet compilation engine:
//! configuration values, contexts, the compiler state machine and the codec for
//! zero-terminated byte strings.

pub mod cli;
pub mod codec;
pub mod compiler;
pub mod context;
pub mod data_context;
pub mod file_context;
pub mod inspect_options;
pub mod output_options;
pub mod options;
pub mod path_list;
