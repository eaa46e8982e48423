//! The terminal file explorer used to pick files.

pub mod file_explorer;
