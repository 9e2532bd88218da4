//! Runs typed scripts by erasing their type annotations into plain script
//! text, then handing the result to a script engine.
pub mod erase;
pub mod runner;
