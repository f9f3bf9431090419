//! Building blocks of a shell prompt: an abbreviated, styled rendering of the
//! working directory, a classifier for in-progress git operations, and the
//! small decisions around the prompt character.

pub mod git_state;
pub mod path_format;
pub mod prompt;
pub mod style;
