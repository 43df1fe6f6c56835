//! Text messages: the bot commands, the replies to them, and the
//! confirmation of a saved note.
use vstd::prelude::*;
use crate::ai::classify::{category_name, ClassifiedNote, NoteCategory};
use crate::git::sync::{sync_result_text, SyncResult};
use crate::text::{
    chars_of, chars_of_string, decimal, parse_unsigned, parsed_unsigned, push_all, push_decimal,
    push_str, split_words, starts_with, string_of, string_views, to_lowercase, unicode_lowercase,
    views, ws_words,
};
use crate::url::detect::same_chars;
use crate::vault::writer::{hashtag_line, hashtags};

verus! {

/// The emoji marking a saved todo or note.
pub open spec fn category_emoji(c: NoteCategory) -> Seq<char> {
    match c {
        NoteCategory::Todo => "📌"@,
        _ => "📝"@,
    }
}

/// The reply confirming a saved note: a thumbs up for a log; for a todo
/// or note its kind, summary and tags.
pub open spec fn note_confirmation(category: NoteCategory, summary: Seq<char>, tags: Seq<Seq<char>>) -> Seq<char> {
    match category {
        NoteCategory::Log => "👍"@,
        _ => "✅ "@ + category_emoji(category) + " saved as "@ + category_name(category) + "\n"@
            + summary + if tags.len() == 0 {
            Seq::empty()
        } else {
            "\nTags: "@ + hashtags(tags)
        },
    }
}

/// The reply confirming a saved note.
pub fn build_confirmation_message(classified: &ClassifiedNote) -> (r: String)
    ensures
        r@ == note_confirmation(classified.category, classified.summary@, string_views(classified.tags@)),
{
    match classified.category {
        NoteCategory::Log => "👍".to_owned(),
        _ => {
            let mut out = chars_of("✅ ");
            match classified.category {
                NoteCategory::Todo => push_str(&mut out, "📌"),
                _ => push_str(&mut out, "📝"),
            }
            push_str(&mut out, " saved as ");
            push_str(&mut out, classified.category.as_str());
            push_str(&mut out, "\n");
            push_str(&mut out, classified.summary.as_str());
            if classified.tags.len() > 0 {
                push_str(&mut out, "\nTags: ");
                let h = hashtag_line(&classified.tags);
                push_all(&mut out, &h);
            }
            string_of(&out)
        },
    }
}

/// The note recorded when classification failed: the raw text as a log entry.
pub fn fallback_note(text: &str) -> (r: ClassifiedNote)
    ensures
        r.category == NoteCategory::Log,
        r.markdown@ == "- "@ + text@,
        r.tags@.len() == 0,
        r.summary@ == text@,
        r.frontmatter is None,
{
    let mut md = chars_of("- ");
    push_str(&mut md, text);
    ClassifiedNote {
        category: NoteCategory::Log,
        markdown: string_of(&md),
        tags: Vec::new(),
        summary: text.to_owned(),
        frontmatter: None,
    }
}

/// The command a text message is.
#[derive(Debug, Clone, Copy, PartialEq, Eq, Structural)]
pub enum TextCommand {
    /// `/git_refresh`
    GitRefresh,
    /// `/git_force_refresh`
    GitForceRefresh,
    /// `/finance_tokens`
    FinanceTokens,
    /// A message starting with `/set_finance_tokens`
    SetFinanceTokens,
    /// Not a command.
    Plain,
}

/// The command a message's text names.
pub open spec fn command_of(text: Seq<char>) -> TextCommand {
    if text == "/git_refresh"@ {
        TextCommand::GitRefresh
    } else if text == "/git_force_refresh"@ {
        TextCommand::GitForceRefresh
    } else if text == "/finance_tokens"@ {
        TextCommand::FinanceTokens
    } else if starts_with(text, "/set_finance_tokens"@) {
        TextCommand::SetFinanceTokens
    } else {
        TextCommand::Plain
    }
}

/// The command a message's text names.
pub fn classify_command(text: &str) -> (r: TextCommand)
    ensures
        r == command_of(text@),
{
    let v = chars_of(text);
    if same_chars(&v, &chars_of("/git_refresh")) {
        TextCommand::GitRefresh
    } else if same_chars(&v, &chars_of("/git_force_refresh")) {
        TextCommand::GitForceRefresh
    } else if same_chars(&v, &chars_of("/finance_tokens")) {
        TextCommand::FinanceTokens
    } else if crate::text::has_prefix(&v, &chars_of("/set_finance_tokens")) {
        TextCommand::SetFinanceTokens
    } else {
        TextCommand::Plain
    }
}

/// How a saved note is acknowledged.
#[derive(Debug, Clone)]
pub enum Acknowledgement {
    /// Send this message.
    Message(String),
    /// React to the message with this emoji; when that fails, send the
    /// fallback message.
    Reaction { emoji: String, fallback: String },
}

/// How a saved note is acknowledged: todos and notes get their
/// confirmation message; a log gets the configured reaction (with the log
/// text as fallback) or the log text.
pub fn acknowledgement(classified: &ClassifiedNote, ack: &crate::config::AckConfig) -> (r: Acknowledgement)
    ensures
        classified.category != NoteCategory::Log ==> (r matches Acknowledgement::Message(m) && m@ == note_confirmation(
            classified.category,
            classified.summary@,
            string_views(classified.tags@),
        )),
        classified.category == NoteCategory::Log ==> match ack.log_mode {
            crate::config::LogAckMode::Reaction => r matches Acknowledgement::Reaction { emoji, fallback } && emoji@
                == ack.reaction_emoji@ && fallback@ == ack.log_text@,
            crate::config::LogAckMode::Text => r matches Acknowledgement::Message(m) && m@ == ack.log_text@,
        },
{
    match classified.category {
        NoteCategory::Log => match ack.log_mode {
            crate::config::LogAckMode::Reaction => Acknowledgement::Reaction {
                emoji: ack.reaction_emoji.clone(),
                fallback: ack.log_text.clone(),
            },
            crate::config::LogAckMode::Text => Acknowledgement::Message(ack.log_text.clone()),
        },
        _ => Acknowledgement::Message(build_confirmation_message(classified)),
    }
}

/// Where a text message goes: a command first, then its links, else it is
/// a note.
#[derive(Debug, Clone)]
pub enum TextRoute {
    Command(TextCommand),
    /// The links found, and the text around them when the message is more
    /// than a single link.
    Links { urls: Vec<crate::url::detect::DetectedUrl>, surrounding: Option<String> },
    Note,
}

/// Routes a text message.
pub fn route_text(text: &str) -> (r: TextRoute)
    ensures
        command_of(text@) != TextCommand::Plain ==> r == TextRoute::Command(command_of(text@)),
        command_of(text@) == TextCommand::Plain ==> match r {
            TextRoute::Links { urls, surrounding } => {
                &&& crate::url::detect::linkify_urls(text@).len() > 0
                &&& crate::url::detect::detected(urls@, crate::url::detect::linkify_urls(text@))
                &&& crate::text::opt_string_view(surrounding) == crate::handlers::url::surrounding_text_of(text@, urls@)
            },
            TextRoute::Note => crate::url::detect::linkify_urls(text@).len() == 0,
            TextRoute::Command(_) => false,
        },
{
    let c = classify_command(text);
    match c {
        TextCommand::Plain => {},
        _ => return TextRoute::Command(c),
    }
    let urls = crate::url::detect::detect_urls(text);
    if urls.len() == 0 {
        TextRoute::Note
    } else {
        let surrounding = crate::handlers::url::surrounding_text(text, &urls);
        TextRoute::Links { urls, surrounding }
    }
}

/// The limits the finance bot's requests are made with.
#[derive(Debug, Clone, Copy, PartialEq, Eq, Structural)]
pub enum TokenLimit {
    Classify,
    Query,
    Transaction,
}

/// The limit a (lower-cased) target word names.
pub open spec fn limit_named(w: Seq<char>) -> Option<TokenLimit> {
    if w == "classify"@ {
        Some(TokenLimit::Classify)
    } else if w == "query"@ {
        Some(TokenLimit::Query)
    } else if w == "transaction"@ || w == "update"@ {
        Some(TokenLimit::Transaction)
    } else {
        None
    }
}

/// The name a limit is reported with.
pub open spec fn limit_word(l: TokenLimit) -> Seq<char> {
    match l {
        TokenLimit::Classify => "classify"@,
        TokenLimit::Query => "query"@,
        TokenLimit::Transaction => "transaction"@,
    }
}

/// The usage reply of `/set_finance_tokens`.
pub open spec fn set_tokens_usage() -> Seq<char> {
    "❌ Usage: <code>/set_finance_tokens &lt;classify|query|transaction&gt; &lt;value&gt;</code>"@
}

/// What `/set_finance_tokens <target> <value>` asks for, and the reply:
/// the limit and value when both are valid, else the reason in the reply.
pub open spec fn set_tokens_request(text: Seq<char>) -> (Option<(TokenLimit, u32)>, Seq<char>) {
    let parts = ws_words(text);
    if parts.len() != 3 {
        (None, set_tokens_usage())
    } else {
        match parsed_unsigned(parts[2], u32::MAX as nat) {
            None => (None, "❌ Invalid token value. Must be a positive integer."@),
            Some(v) => match limit_named(unicode_lowercase(parts[1])) {
                None => (None, "❌ Unknown limit target. Use <code>classify</code>, <code>query</code>, or <code>transaction</code>."@),
                Some(l) => (Some((l, v as u32)), "✅ Updated <b>"@ + limit_word(l) + "</b> max_tokens to <code>"@ + decimal(v) + "</code>"@),
            },
        }
    }
}

/// Reads `/set_finance_tokens <target> <value>`.
pub fn parse_set_finance_tokens(text: &str) -> (r: (Option<(TokenLimit, u32)>, String))
    ensures
        r.0 == set_tokens_request(text@).0,
        r.1@ == set_tokens_request(text@).1,
{
    let parts = split_words(&chars_of(text));
    if parts.len() != 3 {
        return (None, "❌ Usage: <code>/set_finance_tokens &lt;classify|query|transaction&gt; &lt;value&gt;</code>".to_owned());
    }
    let value_text = string_of(&parts[2]);
    let val = match parse_unsigned(value_text.as_str(), 4294967295u64) {
        Some(v) => v,
        None => return (None, "❌ Invalid token value. Must be a positive integer.".to_owned()),
    };
    let target_text = string_of(&parts[1]);
    let lower = chars_of_string(&to_lowercase(target_text.as_str()));
    let limit = if same_chars(&lower, &chars_of("classify")) {
        TokenLimit::Classify
    } else if same_chars(&lower, &chars_of("query")) {
        TokenLimit::Query
    } else if same_chars(&lower, &chars_of("transaction")) || same_chars(&lower, &chars_of("update")) {
        TokenLimit::Transaction
    } else {
        return (None, "❌ Unknown limit target. Use <code>classify</code>, <code>query</code>, or <code>transaction</code>.".to_owned());
    };
    let mut reply = chars_of("✅ Updated <b>");
    match limit {
        TokenLimit::Classify => push_str(&mut reply, "classify"),
        TokenLimit::Query => push_str(&mut reply, "query"),
        TokenLimit::Transaction => push_str(&mut reply, "transaction"),
    }
    push_str(&mut reply, "</b> max_tokens to <code>");
    push_decimal(&mut reply, val);
    push_str(&mut reply, "</code>");
    (Some((limit, val as u32)), string_of(&reply))
}

/// The reply of `/finance_tokens` listing the current limits.
pub open spec fn finance_tokens_text(classify: nat, query: nat, transaction: nat) -> Seq<char> {
    "<b>📊 Current Finance Bot max_tokens limits:</b>\n• Classify: <code>"@ + decimal(classify)
        + "</code>\n• Query: <code>"@ + decimal(query) + "</code>\n• Transaction Update: <code>"@
        + decimal(transaction)
        + "</code>\n\nTo change a limit, use:\n<code>/set_finance_tokens &lt;classify|query|transaction&gt; &lt;value&gt;</code>"@
}

/// The reply of `/finance_tokens`.
pub fn finance_tokens_reply(classify: u32, query: u32, transaction: u32) -> (r: String)
    ensures
        r@ == finance_tokens_text(classify as nat, query as nat, transaction as nat),
{
    let mut out = chars_of("<b>📊 Current Finance Bot max_tokens limits:</b>\n• Classify: <code>");
    push_decimal(&mut out, classify as u64);
    push_str(&mut out, "</code>\n• Query: <code>");
    push_decimal(&mut out, query as u64);
    push_str(&mut out, "</code>\n• Transaction Update: <code>");
    push_decimal(&mut out, transaction as u64);
    push_str(
        &mut out,
        "</code>\n\nTo change a limit, use:\n<code>/set_finance_tokens &lt;classify|query|transaction&gt; &lt;value&gt;</code>",
    );
    string_of(&out)
}

/// The reply after a manual sync: by outcome, none for a conflict (the
/// conflict dialogue answers instead), or the failure.
pub open spec fn manual_sync_text(r: Result<SyncResult, Seq<char>>) -> Option<Seq<char>> {
    match r {
        Ok(SyncResult::NothingToSync) => Some("✅ Git sync completed: Nothing to sync."@),
        Ok(SyncResult::Pushed) => Some("✅ Git sync completed: Local changes pushed to remote."@),
        Ok(SyncResult::PushedWithoutFetch) => Some("✅ Git sync completed: Pushed without fetch (remote offline)."@),
        Ok(SyncResult::RebasedAndPushed) => Some("✅ Git sync completed: Rebased local changes on top of remote and pushed successfully."@),
        Ok(SyncResult::ConflictDetected) => None,
        Err(e) => Some("❌ Git sync failed: "@ + e),
    }
}

/// The reply after a manual sync.
pub fn manual_sync_reply(r: Result<SyncResult, &str>) -> (s: Option<String>)
    ensures
        crate::text::opt_string_view(s) == manual_sync_text(match r {
            Ok(x) => Ok(x),
            Err(e) => Err(e@),
        }),
{
    match r {
        Ok(SyncResult::NothingToSync) => Some("✅ Git sync completed: Nothing to sync.".to_owned()),
        Ok(SyncResult::Pushed) => Some("✅ Git sync completed: Local changes pushed to remote.".to_owned()),
        Ok(SyncResult::PushedWithoutFetch) => Some("✅ Git sync completed: Pushed without fetch (remote offline).".to_owned()),
        Ok(SyncResult::RebasedAndPushed) => Some("✅ Git sync completed: Rebased local changes on top of remote and pushed successfully.".to_owned()),
        Ok(SyncResult::ConflictDetected) => None,
        Err(e) => {
            let mut out = chars_of("❌ Git sync failed: ");
            push_str(&mut out, e);
            Some(string_of(&out))
        },
    }
}

/// The reply when a git operation is already running.
pub fn git_busy_reply() -> (r: &'static str)
    ensures
        r@ == "⏳ Git operation is already in progress. Please try again in a moment."@,
{
    "⏳ Git operation is already in progress. Please try again in a moment."
}

/// The reply when git synchronisation is switched off.
pub fn git_disabled_reply() -> (r: &'static str)
    ensures
        r@ == "⚠️ Git synchronization is disabled in configuration."@,
{
    "⚠️ Git synchronization is disabled in configuration."
}

/// The reply when a note was saved raw because classification failed.
pub fn raw_saved_reply() -> (r: &'static str)
    ensures
        r@ == "📝 Saved as raw log entry (AI classification unavailable)"@,
{
    "📝 Saved as raw log entry (AI classification unavailable)"
}

/// The reply when saving failed.
pub fn save_failed_reply(error: &str) -> (r: String)
    ensures
        r@ == "❌ Failed to save: "@ + error@,
{
    let mut out = chars_of("❌ Failed to save: ");
    push_str(&mut out, error);
    string_of(&out)
}

} // verus!
