//! Daily notes, frontmatter, transcripts and entry formatting.
pub mod daily_note;
pub mod frontmatter;
pub mod transcript;
pub mod yaml;
pub mod writer;
