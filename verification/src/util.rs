//! Text handling and the construction of the presence.

pub mod git;
pub mod path;
pub mod text;
pub mod utils;
pub mod workspace;
