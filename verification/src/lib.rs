//! MasterBooter's deployment logic: WinPE package selection, answer-file
//! generation, tool catalogs, command-output parsing and version handling.

pub mod adk_packages;
pub mod command_output;
pub mod deploy;
pub mod first_logon;
pub mod pe_fixes;
pub mod pe_tools;
pub mod pipeline;
pub mod scripts;
pub mod text;
pub mod tools;
pub mod units;
pub mod unattend;
pub mod updater;
