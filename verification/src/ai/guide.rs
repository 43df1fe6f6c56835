//! The user guide appended to system prompts.
use vstd::prelude::*;
use crate::text::{chars_of, push_str, string_of, trim, trimmed};

verus! {

/// A system prompt with the guide, when there is one, appended between
/// `<user_guide>` delimiters.
pub open spec fn composed_prompt(base: Seq<char>, guide: Option<Seq<char>>) -> Seq<char> {
    match guide {
        Some(g) => base + "\n\n<user_guide>\n"@ + g + "\n</user_guide>"@,
        None => base,
    }
}

/// Compose a system prompt with optional guide content.
///
/// If guide is provided, appends it wrapped in `<user_guide>` delimiters.
/// If guide is None, returns base_prompt unchanged.
pub fn compose_system_prompt(base_prompt: &str, guide: Option<&str>) -> (r: String)
    ensures
        r@ == composed_prompt(base_prompt@, crate::text::opt_str_view(guide)),
{
    let mut out = chars_of(base_prompt);
    if let Some(g) = guide {
        push_str(&mut out, "\n\n<user_guide>\n");
        push_str(&mut out, g);
        push_str(&mut out, "\n</user_guide>");
    }
    string_of(&out)
}

/// The guide held by a guide file: its trimmed content, none when blank.
pub open spec fn guide_text(content: Seq<char>) -> Option<Seq<char>> {
    if trim(content).len() == 0 {
        None
    } else {
        Some(trim(content))
    }
}

/// The guide a guide file's content gives: trimmed, and `None` when empty.
pub fn guide_from_content(content: &str) -> (r: Option<String>)
    ensures
        crate::text::opt_string_view(r) == guide_text(content@),
{
    let t = trimmed(&chars_of(content));
    if t.len() == 0 {
        None
    } else {
        Some(string_of(&t))
    }
}

} // verus!
