//! Which handler a chat update goes to.
use vstd::prelude::*;
use crate::text::{chars_of, ends_with, has_prefix, has_suffix, opt_str_view, starts_with};
use crate::url::detect::same_chars;

verus! {

/// The parts of a message that decide where it goes.
#[derive(Debug, Clone)]
pub struct MessageShape {
    pub has_photo: bool,
    pub has_voice: bool,
    pub has_text: bool,
    /// A document's MIME type and file name, when the message carries one.
    pub document: Option<(Option<String>, Option<String>)>,
}

/// Where a message of the notes bot goes.
#[derive(Debug, Clone, Copy)]
pub enum MessageRoute {
    Photo,
    Voice,
    Text,
    Pdf,
    /// Nothing to process: answer with this text.
    Reply(&'static str),
}

/// A document is a PDF by its MIME type or its `.pdf` file name.
pub open spec fn is_pdf_document(mime_type: Option<String>, file_name: Option<String>) -> bool {
    (mime_type matches Some(m) && m@ == "application/pdf"@) || (file_name matches Some(n) && ends_with(
        n@,
        ".pdf"@,
    ))
}

/// The reply to a document that is not a PDF.
pub open spec fn pdf_only_text() -> Seq<char> {
    "I currently only support PDF documents. Please send a valid PDF!"@
}

/// The reply to a message the notes bot cannot process.
pub open spec fn unsupported_message_text() -> Seq<char> {
    "I can process text, voice, photo, and PDF messages. Please send one of those!"@
}

/// Whether a document is a PDF.
fn pdf_document(mime_type: &Option<String>, file_name: &Option<String>) -> (r: bool)
    ensures
        r == is_pdf_document(*mime_type, *file_name),
{
    let by_type = match mime_type {
        Some(m) => same_chars(&chars_of(m.as_str()), &chars_of("application/pdf")),
        None => false,
    };
    let by_name = match file_name {
        Some(n) => has_suffix(&chars_of(n.as_str()), &chars_of(".pdf")),
        None => false,
    };
    by_type || by_name
}

/// Routes a message of the notes bot: a photo first, then a voice note,
/// then text, then a PDF document; other documents and anything else get
/// a reply.
pub fn route_message(m: &MessageShape) -> (r: MessageRoute)
    ensures
        m.has_photo ==> r == MessageRoute::Photo,
        !m.has_photo && m.has_voice ==> r == MessageRoute::Voice,
        !m.has_photo && !m.has_voice && m.has_text ==> r == MessageRoute::Text,
        !m.has_photo && !m.has_voice && !m.has_text ==> match m.document {
            Some((t, n)) => if is_pdf_document(t, n) {
                r == MessageRoute::Pdf
            } else {
                r matches MessageRoute::Reply(s) && s@ == pdf_only_text()
            },
            None => r matches MessageRoute::Reply(s) && s@ == unsupported_message_text(),
        },
{
    if m.has_photo {
        MessageRoute::Photo
    } else if m.has_voice {
        MessageRoute::Voice
    } else if m.has_text {
        MessageRoute::Text
    } else {
        match &m.document {
            Some((t, n)) => if pdf_document(t, n) {
                MessageRoute::Pdf
            } else {
                MessageRoute::Reply("I currently only support PDF documents. Please send a valid PDF!")
            },
            None => MessageRoute::Reply("I can process text, voice, photo, and PDF messages. Please send one of those!"),
        }
    }
}

/// The reply to a message the finance bot cannot process.
pub open spec fn finance_unsupported_text() -> Seq<char> {
    "I can process text, voice, and photo messages for your portfolio. Please send one of those!"@
}

/// Routes a message of the finance bot: a photo first, then a voice note,
/// then text; anything else gets a reply.
pub fn route_finance_message(has_photo: bool, has_voice: bool, has_text: bool) -> (r: MessageRoute)
    ensures
        has_photo ==> r == MessageRoute::Photo,
        !has_photo && has_voice ==> r == MessageRoute::Voice,
        !has_photo && !has_voice && has_text ==> r == MessageRoute::Text,
        !has_photo && !has_voice && !has_text ==> (r matches MessageRoute::Reply(s) && s@ == finance_unsupported_text()),
{
    if has_photo {
        MessageRoute::Photo
    } else if has_voice {
        MessageRoute::Voice
    } else if has_text {
        MessageRoute::Text
    } else {
        MessageRoute::Reply("I can process text, voice, and photo messages for your portfolio. Please send one of those!")
    }
}

/// Where a button press goes.
#[derive(Debug, Clone, PartialEq, Eq)]
pub enum CallbackRoute {
    /// A full-transcript button, with its request id.
    Transcript(String),
    /// A conflict-resolution button.
    Conflict,
    /// Anything else.
    Unknown,
}

/// Routes a button press by its data: `yt_transcript:` buttons, then
/// `conflict:` buttons.
pub fn route_callback(data: Option<&str>) -> (r: CallbackRoute)
    ensures
        match opt_str_view(data) {
            None => r == CallbackRoute::Unknown,
            Some(d) => match crate::handlers::url::transcript_request_of(d) {
                Some(id) => r matches CallbackRoute::Transcript(x) && x@ == id,
                None => if starts_with(d, "conflict:"@) {
                    r == CallbackRoute::Conflict
                } else {
                    r == CallbackRoute::Unknown
                },
            },
        },
{
    match data {
        None => CallbackRoute::Unknown,
        Some(d) => match crate::handlers::url::parse_transcript_callback(d) {
            Some(id) => CallbackRoute::Transcript(id),
            None => if has_prefix(&chars_of(d), &chars_of("conflict:")) {
                CallbackRoute::Conflict
            } else {
                CallbackRoute::Unknown
            },
        },
    }
}

} // verus!
