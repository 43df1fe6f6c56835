//! The finance bot: where a message comes from, the prompts of its ledger
//! updates and portfolio questions, and the reading of model answers.
use vstd::prelude::*;
use crate::vault::yaml::{yaml_entries, yaml_get, yaml_lookup, yaml_view, YamlValue, YamlView};
use crate::ai::ChatMessage;
use crate::text::{
    chars_of, ends_with, has_prefix, has_suffix, opt_str_view, push_str, replace_all, replace_chars,
    slice_of, starts_with, string_of, to_lowercase, to_uppercase, trim, trimmed, unicode_lowercase,
    unicode_uppercase,
};

verus! {

/// A model answer with a surrounding code fence removed: trimmed, the
/// opening fence (` ```json ` or ` ``` `) deleted wherever it occurs, one
/// closing ` ``` ` cut, trimmed again.
pub open spec fn cleaned_json(content: Seq<char>) -> Seq<char> {
    let t = trim(content);
    let a = if starts_with(t, "```json"@) {
        replace_all(t, "```json"@, Seq::empty())
    } else if starts_with(t, "```"@) {
        replace_all(t, "```"@, Seq::empty())
    } else {
        t
    };
    let b = if ends_with(a, "```"@) {
        a.take(a.len() - "```"@.len())
    } else {
        a
    };
    trim(b)
}

/// Removes a markdown code fence around a JSON answer.
pub fn clean_json_response(content: &str) -> (r: String)
    ensures
        r@ == cleaned_json(content@),
{
    let t = trimmed(&chars_of(content));
    let json_fence = chars_of("```json");
    let fence = chars_of("```");
    proof {
        reveal_strlit("```json");
        reveal_strlit("```");
    }
    let empty: Vec<char> = Vec::new();
    let a = if has_prefix(&t, &json_fence) {
        replace_chars(&t, &json_fence, &empty)
    } else if has_prefix(&t, &fence) {
        replace_chars(&t, &fence, &empty)
    } else {
        t
    };
    assert(empty@ =~= Seq::<char>::empty());
    let b = if has_suffix(&a, &fence) {
        let s = slice_of(&a, 0, a.len() - fence.len());
        assert(s@ =~= a@.take(a@.len() - "```"@.len()));
        s
    } else {
        a
    };
    string_of(&trimmed(&b))
}


/// A chat as a message names it.
#[derive(Debug, Clone)]
pub struct ChatRef {
    pub username: Option<String>,
    pub title: Option<String>,
}

/// A user as a message names them.
#[derive(Debug, Clone)]
pub struct UserRef {
    pub username: Option<String>,
    pub full_name: String,
}

/// What a message says about where it came from.
#[derive(Debug, Clone)]
pub struct MessageOrigin {
    /// The chat a forwarded message was taken from.
    pub forward_chat: Option<ChatRef>,
    /// The user a forwarded message was taken from.
    pub forward_user: Option<UserRef>,
    /// The signature of a forwarded channel post.
    pub forward_signature: Option<String>,
    /// The name of a hidden forward sender.
    pub forward_sender_name: Option<String>,
    /// Whether the message was sent in a private chat.
    pub chat_is_private: bool,
    /// The chat the message was sent in.
    pub chat: ChatRef,
    /// The sender.
    pub from: Option<UserRef>,
}

/// `@name`.
pub open spec fn at_name(name: Seq<char>) -> Seq<char> {
    "@"@ + name
}

/// A chat's `@username`, else its title.
pub open spec fn chat_label(c: ChatRef) -> Option<Seq<char>> {
    match c.username {
        Some(u) => Some(at_name(u@)),
        None => match c.title {
            Some(t) => Some(t@),
            None => None,
        },
    }
}

/// A user's `@username`, else their full name.
pub open spec fn user_label(u: UserRef) -> Seq<char> {
    match u.username {
        Some(n) => at_name(n@),
        None => u.full_name@,
    }
}

/// The source of a message: the forwarded chat, the forwarded user, the
/// forward signature, the hidden sender's name, a group or channel the
/// message was sent in, and finally the sender, whichever comes first.
pub open spec fn message_source(o: MessageOrigin) -> Option<Seq<char>> {
    let from_chat = match o.forward_chat {
        Some(c) => chat_label(c),
        None => None,
    };
    if from_chat is Some {
        from_chat
    } else if o.forward_user is Some {
        Some(user_label(o.forward_user->0))
    } else if o.forward_signature is Some {
        Some(o.forward_signature->0@)
    } else if o.forward_sender_name is Some {
        Some(o.forward_sender_name->0@)
    } else if !o.chat_is_private && chat_label(o.chat) is Some {
        chat_label(o.chat)
    } else {
        match o.from {
            Some(u) => Some(user_label(u)),
            None => None,
        }
    }
}

fn chat_label_of(c: &ChatRef) -> (r: Option<String>)
    ensures
        crate::text::opt_string_view(r) == chat_label(*c),
{
    match &c.username {
        Some(u) => {
            let mut out = chars_of("@");
            push_str(&mut out, u.as_str());
            Some(string_of(&out))
        },
        None => match &c.title {
            Some(t) => Some(t.clone()),
            None => None,
        },
    }
}

fn user_label_of(u: &UserRef) -> (r: String)
    ensures
        r@ == user_label(*u),
{
    match &u.username {
        Some(n) => {
            let mut out = chars_of("@");
            push_str(&mut out, n.as_str());
            string_of(&out)
        },
        None => u.full_name.clone(),
    }
}

/// Extract origin/source from a Telegram message
pub fn get_message_source(origin: &MessageOrigin) -> (r: Option<String>)
    ensures
        crate::text::opt_string_view(r) == message_source(*origin),
{
    if let Some(c) = &origin.forward_chat {
        let l = chat_label_of(c);
        if l.is_some() {
            return l;
        }
    }
    if let Some(u) = &origin.forward_user {
        return Some(user_label_of(u));
    }
    if let Some(sig) = &origin.forward_signature {
        return Some(sig.clone());
    }
    if let Some(name) = &origin.forward_sender_name {
        return Some(name.clone());
    }
    if !origin.chat_is_private {
        let l = chat_label_of(&origin.chat);
        if l.is_some() {
            return l;
        }
    }
    match &origin.from {
        Some(u) => Some(user_label_of(u)),
        None => None,
    }
}

/// What a classified finance message asks for.
#[derive(Debug, Clone, Copy, PartialEq, Eq, Structural)]
pub enum FinanceIntent {
    Transaction,
    Question,
    Unknown,
}

/// The intent named by a classification's `type`.
pub open spec fn intent_named(t: Seq<char>) -> FinanceIntent {
    if t == "transaction"@ {
        FinanceIntent::Transaction
    } else if t == "question"@ {
        FinanceIntent::Question
    } else {
        FinanceIntent::Unknown
    }
}

/// The intent named by a classification's `type`.
pub fn finance_intent(msg_type: &str) -> (r: FinanceIntent)
    ensures
        r == intent_named(msg_type@),
{
    let t = chars_of(msg_type);
    if crate::url::detect::same_chars(&t, &chars_of("transaction")) {
        FinanceIntent::Transaction
    } else if crate::url::detect::same_chars(&t, &chars_of("question")) {
        FinanceIntent::Question
    } else {
        FinanceIntent::Unknown
    }
}

/// What the finance bot does with a classified message.
#[derive(Debug, Clone)]
pub enum FinanceAction {
    /// Update the ledger of this (upper-cased) symbol.
    UpdateLedger(String),
    /// Answer a portfolio question, about this symbol if one was named.
    Answer(Option<String>),
    /// Reply with this text and do nothing else.
    Reply(&'static str),
}

/// The reply to a transaction whose symbol could not be found.
pub open spec fn missing_symbol_text() -> Seq<char> {
    "⚠️ I recognized this is a transaction but couldn't extract the asset symbol. Please specify the symbol (e.g. AAPL, BTC)."@
}

/// The reply to a message that is neither a transaction nor a question.
pub open spec fn unknown_intent_text() -> Seq<char> {
    "❓ I'm not sure how to process that. You can send me position transactions to log (e.g. BUY AAPL 10 shares @ 175) or ask me portfolio questions (e.g. Do I have AAPL?)."@
}

/// What to do with a message of the given type and symbol: a transaction
/// updates the ledger of the upper-cased symbol (or asks for one), a
/// question is answered, anything else gets the help reply.
pub fn finance_action(msg_type: &str, symbol: Option<&str>) -> (r: FinanceAction)
    ensures
        match intent_named(msg_type@) {
            FinanceIntent::Transaction => match symbol {
                Some(s) => r matches FinanceAction::UpdateLedger(u) && u@ == unicode_uppercase(s@),
                None => r matches FinanceAction::Reply(t) && t@ == missing_symbol_text(),
            },
            FinanceIntent::Question => r matches FinanceAction::Answer(q) && crate::text::opt_string_view(q)
                == opt_str_view(symbol),
            FinanceIntent::Unknown => r matches FinanceAction::Reply(t) && t@ == unknown_intent_text(),
        },
{
    match finance_intent(msg_type) {
        FinanceIntent::Transaction => match symbol {
            Some(s) => FinanceAction::UpdateLedger(to_uppercase(s)),
            None => FinanceAction::Reply(
                "⚠️ I recognized this is a transaction but couldn't extract the asset symbol. Please specify the symbol (e.g. AAPL, BTC).",
            ),
        },
        FinanceIntent::Question => FinanceAction::Answer(
            match symbol {
                Some(s) => Some(s.to_owned()),
                None => None,
            },
        ),
        FinanceIntent::Unknown => FinanceAction::Reply(
            "❓ I'm not sure how to process that. You can send me position transactions to log (e.g. BUY AAPL 10 shares @ 175) or ask me portfolio questions (e.g. Do I have AAPL?).",
        ),
    }
}

/// The instructions for classifying a finance message.
pub fn finance_intent_prompt() -> (r: &'static str)
    ensures
        r@ == finance_intent_prompt_text(),
{
    "You are a financial assistant for an Obsidian-based portfolio tracker.\nAnalyze the user's message and determine:\n1. Is it a question (e.g. \"Do I have AAPL?\", \"What are my profits?\", \"Show my positions\", \"What is my BTC position?\")?\n2. Is it a position transaction (buy, sell, open, close, entry, exit, forwarded trading signal, etc.)?\n3. Is it unknown/other?\n\nFor transaction types, also determine if it is a sell/close order (e.g. sell, close, exit, short).\n\nYou must respond with a JSON object in this exact format:\n{\n  \"type\": \"question\" | \"transaction\" | \"unknown\",\n  \"symbol\": \"extracted asset symbol in uppercase, e.g. AAPL, BTC, or null if none/general\",\n  \"is_general_question\": true | false,\n  \"is_sell\": true | false | null\n}\n\nDo not include any explanation or markdown formatting in your response. Return raw JSON only."
}

/// The instructions for classifying a finance message.
pub open spec fn finance_intent_prompt_text() -> Seq<char> {
    "You are a financial assistant for an Obsidian-based portfolio tracker.\nAnalyze the user's message and determine:\n1. Is it a question (e.g. \"Do I have AAPL?\", \"What are my profits?\", \"Show my positions\", \"What is my BTC position?\")?\n2. Is it a position transaction (buy, sell, open, close, entry, exit, forwarded trading signal, etc.)?\n3. Is it unknown/other?\n\nFor transaction types, also determine if it is a sell/close order (e.g. sell, close, exit, short).\n\nYou must respond with a JSON object in this exact format:\n{\n  \"type\": \"question\" | \"transaction\" | \"unknown\",\n  \"symbol\": \"extracted asset symbol in uppercase, e.g. AAPL, BTC, or null if none/general\",\n  \"is_general_question\": true | false,\n  \"is_sell\": true | false | null\n}\n\nDo not include any explanation or markdown formatting in your response. Return raw JSON only."@
}

/// A system and a user message.
pub open spec fn two_messages(ms: Seq<ChatMessage>, system: Seq<char>, user: Seq<char>) -> bool {
    &&& ms.len() == 2
    &&& ms[0].role@ == "system"@ && ms[0].content@ == system
    &&& ms[1].role@ == "user"@ && ms[1].content@ == user
}

fn conversation(system: String, user: String) -> (r: Vec<ChatMessage>)
    ensures
        two_messages(r@, system@, user@),
{
    let mut ms: Vec<ChatMessage> = Vec::new();
    ms.push(ChatMessage { role: "system".to_owned(), content: system });
    ms.push(ChatMessage { role: "user".to_owned(), content: user });
    ms
}

/// The conversation classifying a finance message.
pub fn intent_messages(text: &str) -> (r: Vec<ChatMessage>)
    ensures
        two_messages(r@, finance_intent_prompt_text(), text@),
{
    conversation(finance_intent_prompt().to_owned(), text.to_owned())
}

/// The note shown before a sell's reply: no open position, or the account
/// it is held in.
pub open spec fn sell_note(has_position: bool, account: Option<Seq<char>>) -> Seq<char> {
    if !has_position {
        "⚠️ Note: You do not have an active open position for this asset in your ledger.\n\n"@
    } else {
        match account {
            Some(a) => "ℹ️ Active position found in account: **"@ + a + "**.\n\n"@,
            None => Seq::empty(),
        }
    }
}

/// The note shown before a sell's reply.
pub fn sell_warning(has_position: bool, account: Option<&str>) -> (r: String)
    ensures
        r@ == sell_note(has_position, opt_str_view(account)),
{
    if !has_position {
        return "⚠️ Note: You do not have an active open position for this asset in your ledger.\n\n".to_owned();
    }
    match account {
        Some(a) => {
            let mut out = chars_of("ℹ️ Active position found in account: **");
            push_str(&mut out, a);
            push_str(&mut out, "**.\n\n");
            string_of(&out)
        },
        None => {
            let out: Vec<char> = Vec::new();
            assert(out@ =~= Seq::<char>::empty());
            string_of(&out)
        },
    }
}

/// The default instructions of ledger updates.
pub open spec fn default_finance_guide_text() -> Seq<char> {
    "You are an expert financial ledger assistant. Your task is to update an Obsidian markdown note representing a stock/crypto position ledger with a new transaction.\nThe note represents a single equity/stock/crypto/asset (e.g., AAPL).\nYou must parse the new transaction details (Buy/Sell, Open/Close, price, size/quantity, profit/loss, time) and update the note.\n\nMaintain a frontmatter section with exactly:\n---\nsymbol: <uppercase asset symbol, e.g. AAPL>\nstatus: <\"open\" or \"closed\">\nposition_size: <current total shares/contracts/units held, 0 if closed>\naverage_entry: <average entry price of the currently open position, 0 if closed. Calculate using weighted average when buying more, resetting appropriately when completely closed>\nrealized_profit: <total accumulated realized profit/loss from closed positions/partial sales for this asset in USD/etc.>\nlast_updated: <current ISO-8601 date-time>\n---\n\nBelow the frontmatter, write a clear `# <symbol> Ledger` header.\nThen, maintain a beautiful Markdown table of transactions under `## Transactions`.\nColumns: Date | Action (BUY/SELL or OPEN/CLOSE) | Price | Quantity | Profit/Loss | Notes\nAdd the new transaction to this table.\nIf an image attachment link is provided (e.g., `![[Finance/Assets/...]]`), you MUST include it inside the transaction notes column or in a notes section so it is linked properly!\n\nIf a message source/origin is specified in the transaction prompt, you MUST record this source clearly inside the transaction's \"Notes\" column (e.g. `[Source: <source>]`).\n\nIf the transaction details do NOT specify a quantity/position size, do NOT assume a default value of 1. Instead, leave the Quantity column in the table empty (or blank) and do not alter or recalculate the existing frontmatter fields (like position_size or average_entry) based on this transaction.\n\nMaintain the historical notes/details inside the notes column or in a `## Notes` section at the bottom.\nReturn the entire updated note content as markdown.\n"@
}

/// The default instructions of ledger updates.
pub fn default_finance_guide() -> (r: &'static str)
    ensures
        r@ == default_finance_guide_text(),
{
    "You are an expert financial ledger assistant. Your task is to update an Obsidian markdown note representing a stock/crypto position ledger with a new transaction.\nThe note represents a single equity/stock/crypto/asset (e.g., AAPL).\nYou must parse the new transaction details (Buy/Sell, Open/Close, price, size/quantity, profit/loss, time) and update the note.\n\nMaintain a frontmatter section with exactly:\n---\nsymbol: <uppercase asset symbol, e.g. AAPL>\nstatus: <\"open\" or \"closed\">\nposition_size: <current total shares/contracts/units held, 0 if closed>\naverage_entry: <average entry price of the currently open position, 0 if closed. Calculate using weighted average when buying more, resetting appropriately when completely closed>\nrealized_profit: <total accumulated realized profit/loss from closed positions/partial sales for this asset in USD/etc.>\nlast_updated: <current ISO-8601 date-time>\n---\n\nBelow the frontmatter, write a clear `# <symbol> Ledger` header.\nThen, maintain a beautiful Markdown table of transactions under `## Transactions`.\nColumns: Date | Action (BUY/SELL or OPEN/CLOSE) | Price | Quantity | Profit/Loss | Notes\nAdd the new transaction to this table.\nIf an image attachment link is provided (e.g., `![[Finance/Assets/...]]`), you MUST include it inside the transaction notes column or in a notes section so it is linked properly!\n\nIf a message source/origin is specified in the transaction prompt, you MUST record this source clearly inside the transaction's \"Notes\" column (e.g. `[Source: <source>]`).\n\nIf the transaction details do NOT specify a quantity/position size, do NOT assume a default value of 1. Instead, leave the Quantity column in the table empty (or blank) and do not alter or recalculate the existing frontmatter fields (like position_size or average_entry) based on this transaction.\n\nMaintain the historical notes/details inside the notes column or in a `## Notes` section at the bottom.\nReturn the entire updated note content as markdown.\n"
}

/// The system prompt of a ledger update for `symbol` under the finance guide.
pub open spec fn transaction_prompt_text(symbol: Seq<char>, guide: Seq<char>) -> Seq<char> {
    "You are a financial portfolio ledger assistant.\nYour task is to process a new transaction for the asset symbol: "@ + symbol
        + ".\nYou must respond with a JSON object in this exact format:\n{\n  \"updated_content\": \"the complete new markdown content for the note, including YAML frontmatter, header, transactions table, and notes\",\n  \"reply\": \"a short, polite, user-friendly summary of what was done, including current position size and average entry price.\"\n}\n\nHere is the custom portfolio instructions you must follow:\n<finance_guide>\n"@
        + guide + "\n</finance_guide>\n\nDo not include any explanation or markdown formatting in your response. Return raw JSON only."@
}

/// The user message of a ledger update: the current note, the new
/// transaction, its source and the attached image.
pub open spec fn transaction_message_text(
    symbol: Seq<char>,
    current: Seq<char>,
    text: Seq<char>,
    source: Option<Seq<char>>,
    image_link: Option<Seq<char>>,
) -> Seq<char> {
    let source_suffix = match source {
        Some(src) => "\nMessage source/origin: "@ + src + "\n(You MUST record this source in the transaction's Notes column.)"@,
        None => Seq::empty(),
    };
    let image_suffix = match image_link {
        Some(l) => "An image was attached. You MUST embed/link this image in the ledger using this exact markdown: "@ + l,
        None => Seq::empty(),
    };
    "Here is the current Obsidian note content for "@ + symbol
        + " (it may be empty if this is the first transaction):\n=== CURRENT NOTE CONTENT ===\n"@ + current
        + "\n============================\n\nThe new transaction message from the user is:\n\""@ + text + "\"\n"@
        + source_suffix + "\n\n"@ + image_suffix + "\nPlease update the note and return the JSON object."@
}

/// The text of a YAML value, when it is text.
pub open spec fn yaml_text_of(v: Option<YamlView>) -> Option<Seq<char>> {
    match v {
        Some(YamlView::Text(s)) => Some(s),
        _ => None,
    }
}

/// The printed text of a YAML value, when it is a number.
pub open spec fn yaml_number_of(v: Option<YamlView>) -> Option<Seq<char>> {
    match v {
        Some(YamlView::Number(n)) => Some(n),
        _ => None,
    }
}

/// The text-keyed entries of a mapping in order, each with its value when
/// that is text.
pub open spec fn text_keyed(es: Seq<(YamlView, YamlView)>) -> Seq<(Seq<char>, Option<Seq<char>>)>
    decreases es.len(),
{
    if es.len() == 0 {
        Seq::empty()
    } else {
        let rest = text_keyed(es.drop_last());
        match es.last().0 {
            YamlView::Text(k) => rest.push((k, yaml_text_of(Some(es.last().1)))),
            _ => rest,
        }
    }
}

/// Entries as character sequences.
pub open spec fn entry_texts(es: Seq<(String, Option<String>)>) -> Seq<(Seq<char>, Option<Seq<char>>)> {
    Seq::new(es.len(), |i: int| (es[i].0@, crate::text::opt_string_view(es[i].1)))
}

/// What a ledger's frontmatter holds for the position check.
pub struct LedgerFields {
    /// The `status` value, when it is text.
    pub status: Option<String>,
    /// The `position_size` value, when it is a number, as its text.
    pub position_size: Option<String>,
    /// The text keys in order, each with its value when that is text.
    pub entries: Vec<(String, Option<String>)>,
}

fn copy_string(s: &String) -> (r: String)
    ensures
        r@ == s@,
{
    string_of(&chars_of(s.as_str()))
}

/// Reads a ledger's frontmatter for the position check: nothing when it is
/// not a mapping; otherwise its `status` text, its `position_size` number
/// text and its text-keyed entries.
pub fn ledger_fields(v: &YamlValue) -> (r: Option<LedgerFields>)
    ensures
        match v@ {
            YamlView::Mapping(es) => r matches Some(f) && crate::text::opt_string_view(f.status) == yaml_text_of(
                yaml_lookup(v@, "status"@),
            ) && crate::text::opt_string_view(f.position_size) == yaml_number_of(
                yaml_lookup(v@, "position_size"@),
            ) && entry_texts(f.entries@) == text_keyed(es),
            _ => r is None,
        },
{
    match v {
        YamlValue::Mapping(es) => {
            let status = match yaml_get(v, "status") {
                Some(x) => match x {
                    YamlValue::Text(s) => Some(copy_string(s)),
                    _ => None,
                },
                None => None,
            };
            let position_size = match yaml_get(v, "position_size") {
                Some(x) => match x {
                    YamlValue::Number(n) => Some(copy_string(n)),
                    _ => None,
                },
                None => None,
            };
            let ghost all = yaml_entries(es@);
            assert(yaml_view(*v)->Mapping_0 =~= all);
            let mut entries: Vec<(String, Option<String>)> = Vec::new();
            let mut i: usize = 0;
            while i < es.len()
                invariant
                    i <= es.len(),
                    all == yaml_entries(es@),
                    entry_texts(entries@) == text_keyed(all.take(i as int)),
                decreases es.len() - i,
            {
                assert(all.take(i + 1).drop_last() =~= all.take(i as int));
                assert(all.take(i + 1).last() == all[i as int]);
                let ghost before = entry_texts(entries@);
                match &es[i].0 {
                    YamlValue::Text(k) => {
                        let value = match &es[i].1 {
                            YamlValue::Text(t) => Some(copy_string(t)),
                            _ => None,
                        };
                        entries.push((copy_string(k), value));
                        assert(entry_texts(entries@) =~= before.push((k@, yaml_text_of(Some(all[i as int].1)))));
                    },
                    _ => {},
                }
                i = i + 1;
            }
            assert(all.take(es.len() as int) =~= all);
            Some(LedgerFields { status, position_size, entries })
        },
        _ => None,
    }
}

/// A frontmatter key naming the account a position is held in
/// (`account`, `broker` or `portfolio`, in any case).
pub open spec fn account_key(key: Seq<char>) -> bool {
    let k = unicode_lowercase(key);
    k == "account"@ || k == "broker"@ || k == "portfolio"@
}

/// The account of a ledger: the text value of the first account key that
/// has one.
pub open spec fn account_of(entries: Seq<(String, Option<String>)>) -> Option<Seq<char>>
    decreases entries.len(),
{
    if entries.len() == 0 {
        None
    } else if account_key(entries[0].0@) && entries[0].1 is Some {
        Some(entries[0].1->0@)
    } else {
        account_of(entries.drop_first())
    }
}

/// What a ledger's frontmatter says of the position: it is open when the
/// position size is positive or the status is `open`; and the account it
/// is held in. `entries` are the frontmatter's keys in order, each with its
/// value when that is text.
pub fn position_check(size_positive: bool, status: Option<&str>, entries: &Vec<(String, Option<String>)>) -> (r: (bool, Option<String>))
    ensures
        r.0 == (size_positive || opt_str_view(status) == Some("open"@)),
        crate::text::opt_string_view(r.1) == account_of(entries@),
{
    let open_status = match status {
        Some(st) => crate::url::detect::same_chars(&chars_of(st), &chars_of("open")),
        None => false,
    };
    let mut i: usize = 0;
    let mut account: Option<String> = None;
    assert(entries@.skip(0) =~= entries@);
    while i < entries.len()
        invariant_except_break
            account is None,
        invariant
            i <= entries.len(),
            account_of(entries@) == account_of(entries@.skip(i as int)),
        ensures
            crate::text::opt_string_view(account) == account_of(entries@),
        decreases entries.len() - i,
    {
        assert(entries@.skip(i as int).drop_first() =~= entries@.skip(i as int + 1));
        assert(entries@.skip(i as int)[0] == entries@[i as int]);
        let k = to_lowercase(entries[i].0.as_str());
        let kc = chars_of(k.as_str());
        let is_key = crate::url::detect::same_chars(&kc, &chars_of("account"))
            || crate::url::detect::same_chars(&kc, &chars_of("broker"))
            || crate::url::detect::same_chars(&kc, &chars_of("portfolio"));
        if is_key {
            if let Some(v) = &entries[i].1 {
                account = Some(v.clone());
                break;
            }
        }
        i = i + 1;
    }
    (size_positive || open_status, account)
}

/// The conversation asking for a ledger update.
pub fn transaction_messages(
    symbol: &str,
    finance_guide: &str,
    current_note: &str,
    text: &str,
    source: Option<&str>,
    image_link: Option<&str>,
) -> (r: Vec<ChatMessage>)
    ensures
        two_messages(
            r@,
            transaction_prompt_text(symbol@, finance_guide@),
            transaction_message_text(symbol@, current_note@, text@, opt_str_view(source), opt_str_view(image_link)),
        ),
{
    let mut sys = chars_of("You are a financial portfolio ledger assistant.\nYour task is to process a new transaction for the asset symbol: ");
    push_str(&mut sys, symbol);
    push_str(
        &mut sys,
        ".\nYou must respond with a JSON object in this exact format:\n{\n  \"updated_content\": \"the complete new markdown content for the note, including YAML frontmatter, header, transactions table, and notes\",\n  \"reply\": \"a short, polite, user-friendly summary of what was done, including current position size and average entry price.\"\n}\n\nHere is the custom portfolio instructions you must follow:\n<finance_guide>\n",
    );
    push_str(&mut sys, finance_guide);
    push_str(&mut sys, "\n</finance_guide>\n\nDo not include any explanation or markdown formatting in your response. Return raw JSON only.");
    let mut user = chars_of("Here is the current Obsidian note content for ");
    push_str(&mut user, symbol);
    push_str(&mut user, " (it may be empty if this is the first transaction):\n=== CURRENT NOTE CONTENT ===\n");
    push_str(&mut user, current_note);
    push_str(&mut user, "\n============================\n\nThe new transaction message from the user is:\n\"");
    push_str(&mut user, text);
    push_str(&mut user, "\"\n");
    if let Some(src) = source {
        push_str(&mut user, "\nMessage source/origin: ");
        push_str(&mut user, src);
        push_str(&mut user, "\n(You MUST record this source in the transaction's Notes column.)");
    }
    push_str(&mut user, "\n\n");
    if let Some(l) = image_link {
        push_str(&mut user, "An image was attached. You MUST embed/link this image in the ledger using this exact markdown: ");
        push_str(&mut user, l);
    }
    push_str(&mut user, "\nPlease update the note and return the JSON object.");
    proof {
        let ss: Seq<char> = match opt_str_view(source) {
            Some(src) => "\nMessage source/origin: "@ + src + "\n(You MUST record this source in the transaction's Notes column.)"@,
            None => Seq::empty(),
        };
        let is: Seq<char> = match opt_str_view(image_link) {
            Some(l) => "An image was attached. You MUST embed/link this image in the ledger using this exact markdown: "@ + l,
            None => Seq::empty(),
        };
        assert(user@ =~= "Here is the current Obsidian note content for "@ + symbol@
            + " (it may be empty if this is the first transaction):\n=== CURRENT NOTE CONTENT ===\n"@ + current_note@
            + "\n============================\n\nThe new transaction message from the user is:\n\""@ + text@ + "\"\n"@
            + ss + "\n\n"@ + is + "\nPlease update the note and return the JSON object."@);
    }
    conversation(string_of(&sys), string_of(&user))
}

/// The reply to a ledger update: the sell note, then the model's reply.
pub fn transaction_reply(warning: &str, reply: &str) -> (r: String)
    ensures
        r@ == warning@ + reply@,
{
    let mut out = chars_of(warning);
    push_str(&mut out, reply);
    string_of(&out)
}

/// The reply when no ledger exists yet.
pub fn no_portfolio_reply() -> (r: &'static str)
    ensures
        r@ == "You don't have any portfolio tracking files yet. Send me a transaction to log to get started!"@,
{
    "You don't have any portfolio tracking files yet. Send me a transaction to log to get started!"
}

/// The ledger file name of a symbol: upper-cased, with `.md`.
pub fn ledger_file_name(symbol: &str) -> (r: String)
    ensures
        r@ == unicode_uppercase(symbol@) + ".md"@,
{
    let up = to_uppercase(symbol);
    let mut out = chars_of(up.as_str());
    push_str(&mut out, ".md");
    string_of(&out)
}

/// The portfolio data of one ledger file: `=== File: name ===`, then its content.
pub fn portfolio_file_block(file_name: &str, content: &str, separator: &str) -> (r: String)
    ensures
        r@ == "=== File: "@ + file_name@ + " ===\n"@ + content@ + separator@,
{
    let mut out = chars_of("=== File: ");
    push_str(&mut out, file_name);
    push_str(&mut out, " ===\n");
    push_str(&mut out, content);
    push_str(&mut out, separator);
    string_of(&out)
}

/// The portfolio data when the asked-for symbol has no ledger.
pub fn no_record_text(symbol: &str) -> (r: String)
    ensures
        r@ == "No record exists for the asset symbol: "@ + unicode_uppercase(symbol@) + ".\n"@,
{
    let up = to_uppercase(symbol);
    let mut out = chars_of("No record exists for the asset symbol: ");
    push_str(&mut out, up.as_str());
    push_str(&mut out, ".\n");
    string_of(&out)
}

/// The system prompt of a portfolio question under the finance guide.
pub open spec fn portfolio_prompt_text(guide: Seq<char>) -> Seq<char> {
    "You are a financial portfolio helper. You are answering a question about the user's investments based on their Obsidian ledger notes.\nHere is the custom portfolio guide you must follow:\n<finance_guide>\n"@
        + guide
        + "\n</finance_guide>\n\nPlease answer the question accurately, professionally, and concisely based on the provided ledger notes.\nFormat the response using clear, clean markdown."@
}

/// The conversation answering a portfolio question from the ledger data.
pub fn portfolio_messages(finance_guide: &str, portfolio_data: &str, question: &str) -> (r: Vec<ChatMessage>)
    ensures
        two_messages(
            r@,
            portfolio_prompt_text(finance_guide@),
            "Here is the current portfolio data:\n=== PORTFOLIO DATA ===\n"@ + portfolio_data@
                + "\n======================\n\nUser question: \""@ + question@ + "\"\nPlease answer."@,
        ),
{
    let mut sys = chars_of(
        "You are a financial portfolio helper. You are answering a question about the user's investments based on their Obsidian ledger notes.\nHere is the custom portfolio guide you must follow:\n<finance_guide>\n",
    );
    push_str(&mut sys, finance_guide);
    push_str(
        &mut sys,
        "\n</finance_guide>\n\nPlease answer the question accurately, professionally, and concisely based on the provided ledger notes.\nFormat the response using clear, clean markdown.",
    );
    let mut user = chars_of("Here is the current portfolio data:\n=== PORTFOLIO DATA ===\n");
    push_str(&mut user, portfolio_data);
    push_str(&mut user, "\n======================\n\nUser question: \"");
    push_str(&mut user, question);
    push_str(&mut user, "\"\nPlease answer.");
    conversation(string_of(&sys), string_of(&user))
}

/// The text standing for a photo sent to the finance bot: the caption
/// with the image's description, or the description alone.
pub fn finance_photo_text(caption: Option<&str>, description: &str) -> (r: String)
    ensures
        r@ == match opt_str_view(caption) {
            Some(c) => c + " [Image Details: "@ + description@ + "]"@,
            None => "[Attached photo describing: "@ + description@ + "]"@,
        },
{
    let mut out = match caption {
        Some(c) => {
            let mut o = chars_of(c);
            push_str(&mut o, " [Image Details: ");
            o
        },
        None => chars_of("[Attached photo describing: "),
    };
    push_str(&mut out, description);
    push_str(&mut out, "]");
    string_of(&out)
}

/// The folder finance photos are saved in: the assets folder inside the
/// finance folder, with `/` as separator.
pub fn finance_assets_folder(finance_folder: &str, assets_folder: &str) -> (r: String)
    ensures
        r@ == replace_all(crate::vault::daily_note::join_path(finance_folder@, assets_folder@), seq!['\\'], seq!['/']),
{
    let joined = crate::vault::daily_note::path_join(finance_folder, assets_folder);
    let back: Vec<char> = vec!['\\'];
    let slash: Vec<char> = vec!['/'];
    assert(back@ =~= seq!['\\']);
    assert(slash@ =~= seq!['/']);
    string_of(&replace_chars(&chars_of(joined.as_str()), &back, &slash))
}

/// The file name `date-finance-xxxx.jpg` of a finance photo for a suffix.
pub open spec fn finance_photo_name(date: Seq<char>, suffix: Seq<char>) -> Seq<char> {
    date + "-finance-"@ + suffix + ".jpg"@
}

/// A fresh file name for a finance photo taken on `date`.
pub fn finance_photo_file_name(date: &str) -> (r: String)
    ensures
        exists|s: Seq<char>| crate::handlers::photo::is_hex4(s) && r@ == finance_photo_name(date@, s),
{
    let suffix = crate::image::process::random_suffix();
    let mut out = chars_of(date);
    push_str(&mut out, "-finance-");
    push_str(&mut out, suffix.as_str());
    push_str(&mut out, ".jpg");
    proof {
        assert(crate::handlers::photo::is_hex4(suffix@));
        assert(out@ =~= finance_photo_name(date@, suffix@));
    }
    string_of(&out)
}

/// The embed of a saved finance photo: `![[folder/file]]`.
pub fn finance_photo_embed(assets_folder: &str, file_name: &str) -> (r: String)
    ensures
        r@ == "![["@ + assets_folder@ + "/"@ + file_name@ + "]]"@,
{
    let mut out = chars_of("![[");
    push_str(&mut out, assets_folder);
    push_str(&mut out, "/");
    push_str(&mut out, file_name);
    push_str(&mut out, "]]");
    string_of(&out)
}

} // verus!
