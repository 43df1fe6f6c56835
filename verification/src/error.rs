//! The error kinds of the library and the messages they are reported with.
use vstd::prelude::*;
use crate::text::{decimal, push_decimal, push_str, string_of};

verus! {

/// Errors while fetching or converting audio.
#[derive(Debug, Clone, PartialEq, Eq)]
pub enum AudioError {
    Download(String),
    /// An I/O failure, by its message.
    Io(String),
}

/// Errors while handling images.
#[derive(Debug, Clone, PartialEq, Eq)]
pub enum ImageError {
    Download(String),
    ResizeFailed(String),
    ExifFailed(String),
    SaveFailed(String),
    /// An I/O failure, by its message.
    Io(String),
}

/// Errors while fetching and reading URLs.
#[derive(Debug, Clone, PartialEq, Eq)]
pub enum UrlError {
    FetchFailed { url: String, reason: String },
    ParseFailed(String),
    TranscriptFailed { video_id: String, reason: String },
    Timeout { url: String, timeout_secs: u64 },
    ContentTooLarge { url: String, size: usize },
}

/// Errors while writing to the vault.
#[derive(Debug, Clone, PartialEq, Eq)]
pub enum VaultError {
    /// An I/O failure, by its message.
    Io(String),
    PathError(String),
    Template(String),
}

/// Errors of git synchronisation.
#[derive(Debug, Clone, PartialEq, Eq)]
pub enum GitError {
    CommandFailed { command: String, message: String },
    RepoNotFound(String),
    ConflictDetected { file_count: usize },
    RebaseAborted,
    PushFailed(String),
    SshAuthFailed(String),
}

/// Errors of the AI providers.
#[derive(Debug, Clone, PartialEq, Eq)]
pub enum AiError {
    /// The HTTP request failed, by its message.
    Request(String),
    ApiError { status: u16, message: String },
    ProviderError { status: u16, message: String },
    RateLimited { retry_after_secs: u64 },
    ParseError(String),
    TranscriptionFailed(String),
    ClassificationFailed(String),
    SummarizationFailed(String),
    UnsupportedCapability(String),
    MaxRetriesExceeded(u32),
}

/// The message of an AI error.
pub open spec fn ai_error_text(e: AiError) -> Seq<char> {
    match e {
        AiError::Request(m) => "HTTP request failed: "@ + m@,
        AiError::ApiError { status, message } => "API returned error "@ + decimal(status as nat) + ": "@ + message@,
        AiError::ProviderError { status, message } => "Provider returned error "@ + decimal(status as nat) + ": "@
            + message@,
        AiError::RateLimited { retry_after_secs } => "Rate limited, retry after "@ + decimal(
            retry_after_secs as nat,
        ) + "s"@,
        AiError::ParseError(m) => "Failed to parse AI response: "@ + m@,
        AiError::TranscriptionFailed(m) => "Transcription failed: "@ + m@,
        AiError::ClassificationFailed(m) => "Classification failed: "@ + m@,
        AiError::SummarizationFailed(m) => "Summarization failed: "@ + m@,
        AiError::UnsupportedCapability(m) => "Unsupported capability: "@ + m@,
        AiError::MaxRetriesExceeded(n) => "Max retries ("@ + decimal(n as nat) + ") exceeded"@,
    }
}

impl AiError {
    /// The message this error is reported with.
    pub fn message(&self) -> (r: String)
        ensures
            r@ == ai_error_text(*self),
    {
        let mut out: Vec<char> = Vec::new();
        match self {
            AiError::Request(m) => {
                push_str(&mut out, "HTTP request failed: ");
                push_str(&mut out, m.as_str());
            },
            AiError::ApiError { status, message } => {
                push_str(&mut out, "API returned error ");
                push_decimal(&mut out, *status as u64);
                push_str(&mut out, ": ");
                push_str(&mut out, message.as_str());
            },
            AiError::ProviderError { status, message } => {
                push_str(&mut out, "Provider returned error ");
                push_decimal(&mut out, *status as u64);
                push_str(&mut out, ": ");
                push_str(&mut out, message.as_str());
            },
            AiError::RateLimited { retry_after_secs } => {
                push_str(&mut out, "Rate limited, retry after ");
                push_decimal(&mut out, *retry_after_secs);
                push_str(&mut out, "s");
            },
            AiError::ParseError(m) => {
                push_str(&mut out, "Failed to parse AI response: ");
                push_str(&mut out, m.as_str());
            },
            AiError::TranscriptionFailed(m) => {
                push_str(&mut out, "Transcription failed: ");
                push_str(&mut out, m.as_str());
            },
            AiError::ClassificationFailed(m) => {
                push_str(&mut out, "Classification failed: ");
                push_str(&mut out, m.as_str());
            },
            AiError::SummarizationFailed(m) => {
                push_str(&mut out, "Summarization failed: ");
                push_str(&mut out, m.as_str());
            },
            AiError::UnsupportedCapability(m) => {
                push_str(&mut out, "Unsupported capability: ");
                push_str(&mut out, m.as_str());
            },
            AiError::MaxRetriesExceeded(n) => {
                push_str(&mut out, "Max retries (");
                push_decimal(&mut out, *n as u64);
                push_str(&mut out, ") exceeded");
            },
        }
        assert(out@ =~= ai_error_text(*self));
        string_of(&out)
    }
}

/// The message of an audio error.
pub open spec fn audio_error_text(e: AudioError) -> Seq<char> {
    match e {
        AudioError::Download(m) => "Failed to download file from Telegram: "@ + m@,
        AudioError::Io(m) => "IO error: "@ + m@,
    }
}

/// The message of an image error.
pub open spec fn image_error_text(e: ImageError) -> Seq<char> {
    match e {
        ImageError::Download(m) => "Failed to download image from Telegram: "@ + m@,
        ImageError::ResizeFailed(m) => "Image resize failed: "@ + m@,
        ImageError::ExifFailed(m) => "EXIF extraction failed: "@ + m@,
        ImageError::SaveFailed(m) => "Failed to save image: "@ + m@,
        ImageError::Io(m) => "IO error: "@ + m@,
    }
}

/// The message of a URL error.
pub open spec fn url_error_text(e: UrlError) -> Seq<char> {
    match e {
        UrlError::FetchFailed { url, reason } => "Failed to fetch URL: "@ + url@ + " — "@ + reason@,
        UrlError::ParseFailed(m) => "Failed to parse page content: "@ + m@,
        UrlError::TranscriptFailed { video_id, reason } => "Failed to fetch transcript for: "@
            + video_id@ + " — "@ + reason@,
        UrlError::Timeout { url, timeout_secs } => "URL fetch timed out after "@ + decimal(
            timeout_secs as nat,
        ) + "s: "@ + url@,
        UrlError::ContentTooLarge { url, size } => "Content too large ("@ + decimal(size as nat)
            + " bytes): "@ + url@,
    }
}

/// The message of a vault error.
pub open spec fn vault_error_text(e: VaultError) -> Seq<char> {
    match e {
        VaultError::Io(m) => "IO error writing to vault: "@ + m@,
        VaultError::PathError(p) => "Daily note path could not be created: "@ + p@,
        VaultError::Template(m) => "Template error: "@ + m@,
    }
}

/// The message of a git error.
pub open spec fn git_error_text(e: GitError) -> Seq<char> {
    match e {
        GitError::CommandFailed { command, message } => "Git command failed: `"@ + command@ + "` — "@
            + message@,
        GitError::RepoNotFound(p) => "Repository not found at: "@ + p@,
        GitError::ConflictDetected { file_count } => "Conflict detected in "@ + decimal(
            file_count as nat,
        ) + " file(s)"@,
        GitError::RebaseAborted => "Rebase aborted by user"@,
        GitError::PushFailed(m) => "Push failed: "@ + m@,
        GitError::SshAuthFailed(m) => "SSH authentication failed: "@ + m@,
    }
}

/// `prefix` followed by `m`.
fn prefixed(prefix: &str, m: &String) -> (r: String)
    ensures
        r@ == prefix@ + m@,
{
    let mut out: Vec<char> = Vec::new();
    push_str(&mut out, prefix);
    push_str(&mut out, m.as_str());
    string_of(&out)
}

impl AudioError {
    /// The message this error is reported with.
    pub fn message(&self) -> (r: String)
        ensures
            r@ == audio_error_text(*self),
    {
        match self {
            AudioError::Download(m) => prefixed("Failed to download file from Telegram: ", m),
            AudioError::Io(m) => prefixed("IO error: ", m),
        }
    }
}

impl ImageError {
    /// The message this error is reported with.
    pub fn message(&self) -> (r: String)
        ensures
            r@ == image_error_text(*self),
    {
        match self {
            ImageError::Download(m) => prefixed("Failed to download image from Telegram: ", m),
            ImageError::ResizeFailed(m) => prefixed("Image resize failed: ", m),
            ImageError::ExifFailed(m) => prefixed("EXIF extraction failed: ", m),
            ImageError::SaveFailed(m) => prefixed("Failed to save image: ", m),
            ImageError::Io(m) => prefixed("IO error: ", m),
        }
    }
}

impl UrlError {
    /// The message this error is reported with.
    pub fn message(&self) -> (r: String)
        ensures
            r@ == url_error_text(*self),
    {
        let mut out: Vec<char> = Vec::new();
        match self {
            UrlError::FetchFailed { url, reason } => {
                push_str(&mut out, "Failed to fetch URL: ");
                push_str(&mut out, url.as_str());
                push_str(&mut out, " — ");
                push_str(&mut out, reason.as_str());
            },
            UrlError::ParseFailed(m) => {
                push_str(&mut out, "Failed to parse page content: ");
                push_str(&mut out, m.as_str());
            },
            UrlError::TranscriptFailed { video_id, reason } => {
                push_str(&mut out, "Failed to fetch transcript for: ");
                push_str(&mut out, video_id.as_str());
                push_str(&mut out, " — ");
                push_str(&mut out, reason.as_str());
            },
            UrlError::Timeout { url, timeout_secs } => {
                push_str(&mut out, "URL fetch timed out after ");
                push_decimal(&mut out, *timeout_secs);
                push_str(&mut out, "s: ");
                push_str(&mut out, url.as_str());
            },
            UrlError::ContentTooLarge { url, size } => {
                push_str(&mut out, "Content too large (");
                push_decimal(&mut out, *size as u64);
                push_str(&mut out, " bytes): ");
                push_str(&mut out, url.as_str());
            },
        }
        assert(out@ =~= url_error_text(*self));
        string_of(&out)
    }
}

impl VaultError {
    /// The message this error is reported with.
    pub fn message(&self) -> (r: String)
        ensures
            r@ == vault_error_text(*self),
    {
        match self {
            VaultError::Io(m) => prefixed("IO error writing to vault: ", m),
            VaultError::PathError(p) => prefixed("Daily note path could not be created: ", p),
            VaultError::Template(m) => prefixed("Template error: ", m),
        }
    }
}

impl GitError {
    /// The message this error is reported with.
    pub fn message(&self) -> (r: String)
        ensures
            r@ == git_error_text(*self),
    {
        let mut out: Vec<char> = Vec::new();
        match self {
            GitError::CommandFailed { command, message } => {
                push_str(&mut out, "Git command failed: `");
                push_str(&mut out, command.as_str());
                push_str(&mut out, "` — ");
                push_str(&mut out, message.as_str());
            },
            GitError::RepoNotFound(p) => {
                push_str(&mut out, "Repository not found at: ");
                push_str(&mut out, p.as_str());
            },
            GitError::ConflictDetected { file_count } => {
                push_str(&mut out, "Conflict detected in ");
                push_decimal(&mut out, *file_count as u64);
                push_str(&mut out, " file(s)");
            },
            GitError::RebaseAborted => {
                push_str(&mut out, "Rebase aborted by user");
            },
            GitError::PushFailed(m) => {
                push_str(&mut out, "Push failed: ");
                push_str(&mut out, m.as_str());
            },
            GitError::SshAuthFailed(m) => {
                push_str(&mut out, "SSH authentication failed: ");
                push_str(&mut out, m.as_str());
            },
        }
        assert(out@ =~= git_error_text(*self));
        string_of(&out)
    }
}

} // verus!
