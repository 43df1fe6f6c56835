//! Voice notes: the reply after a transcribed note was saved.
use vstd::prelude::*;
use crate::ai::classify::{category_name, NoteCategory};
use crate::text::{chars_of, push_str, string_of};
use crate::utils::{safe_truncate, utf8_len};

verus! {

/// The reply after a voice note was saved: its kind and summary, then the
/// transcript cut to at most 200 bytes at a character boundary.
pub fn voice_saved_reply(category: NoteCategory, summary: &str, transcript: &str) -> (r: String)
    ensures
        exists|k: int|
            0 <= k <= transcript@.len() && utf8_len(transcript@.take(k)) <= 200
                && (k < transcript@.len() ==> utf8_len(transcript@.take(k + 1)) > 200)
                && r@ == "✅ Voice → "@ + category_name(category) + " saved as "@ + summary@
                + "\n\nTranscript: \""@ + transcript@.take(k) + "\""@,
{
    let cut = safe_truncate(transcript, 200);
    let mut out = chars_of("✅ Voice → ");
    push_str(&mut out, category.as_str());
    push_str(&mut out, " saved as ");
    push_str(&mut out, summary);
    push_str(&mut out, "\n\nTranscript: \"");
    push_str(&mut out, cut);
    push_str(&mut out, "\"");
    proof {
        let k = cut@.len() as int;
        assert(out@ =~= "✅ Voice → "@ + category_name(category) + " saved as "@ + summary@
            + "\n\nTranscript: \""@ + transcript@.take(k) + "\""@);
    }
    string_of(&out)
}

/// The reply when a voice note could not be processed.
pub fn voice_failed_reply(error: &str) -> (r: String)
    ensures
        r@ == "❌ Voice message processing failed: "@ + error@,
{
    let mut out = chars_of("❌ Voice message processing failed: ");
    push_str(&mut out, error);
    string_of(&out)
}

} // verus!
