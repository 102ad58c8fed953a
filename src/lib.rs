//! Builds graphs in memory and writes them out as DOT text.

pub mod graph;
pub mod lemmas;
pub mod quoting;
pub mod shape;
