//! Image file names and inline encodings.
pub mod exif;
pub mod process;
