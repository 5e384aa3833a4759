//! Script execution results, download integrity checks and `PATH` editing.

pub mod download;
pub mod launch;
pub mod path_list;
pub mod platform;
pub mod process;
