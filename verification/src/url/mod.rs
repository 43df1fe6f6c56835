//! Links in messages: detection, YouTube ids, page text and transcripts.
pub mod detect;
pub mod extract;
pub mod transcript;
pub mod youtube;
