//! Commit-message generation: diff normalisation, prompt rendering, token
//! budgeting, candidate cleaning and the run state machine, with contracts.

pub mod text;
pub mod prompt;
pub mod budget;
pub mod diff;
pub mod completion;
pub mod pipeline;
pub mod git;
pub mod cli;
pub mod settings;
