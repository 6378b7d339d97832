//! Supervises a single child process: resolves where each standard stream
//! goes, composes the child's environment, and commits output files either
//! directly or atomically through staged temporary files.

pub mod commit;
pub mod disposition;
pub mod envcfg;
pub mod exitcode;
pub mod wiring;
