//! The decisions and replies of the chat handlers.
pub mod finance;
pub mod pdf;
pub mod photo;
pub mod route;
pub mod voice;
pub mod text;
pub mod url;
