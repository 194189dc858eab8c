//! Git hooks with a task runner: the verified core of the husky tool.
pub mod cli;
pub mod husky;
