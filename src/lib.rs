//! Terminal hyperlinks for commit hashes and file paths in rendered diff output.

pub mod osc8;
pub mod text;
pub mod git_config;
pub mod commit_pattern;
pub mod hyperlinks;
