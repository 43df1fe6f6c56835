//! Verified core of an Obsidian capture agent: the text, note, prompt and
//! message logic behind turning chat messages into daily-note entries.
use vstd::prelude::*;

pub mod ai;
pub mod clock;
pub mod config;
pub mod error;
pub mod git;
pub mod handlers;
pub mod image;
pub mod json;
pub mod pattern;
pub mod text;
pub mod url;
pub mod utils;
pub mod vault;
pub mod webui;

verus! {

} // verus!
