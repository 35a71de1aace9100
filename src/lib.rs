//! Prompt segments for an interactive shell: colors, colored text fragments,
//! the color-resolution policy, and the repository-status engine that turns
//! a working tree's state into an ordered list of segments.

pub mod cmd;
pub mod color;
pub mod git;
pub mod inspect;
pub mod os;
pub mod policy;
pub mod pwd;
pub mod segment;
pub mod text;
pub mod time;
