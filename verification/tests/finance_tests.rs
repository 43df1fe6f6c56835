use obsidian_ai_agent::handlers::finance::{finance_action, FinanceAction};
use obsidian_ai_agent::handlers::finance::{
    position_check,
    default_finance_guide, finance_intent, finance_intent_prompt, finance_photo_embed,
    finance_photo_text, get_message_source, intent_messages, ledger_file_name, no_portfolio_reply,
    no_record_text, portfolio_file_block, portfolio_messages, sell_warning, transaction_messages,
    transaction_reply, ChatRef, FinanceIntent, MessageOrigin, UserRef,
};

fn s(v: &str) -> String {
    v.to_string()
}

fn origin() -> MessageOrigin {
    MessageOrigin {
        forward_chat: None,
        forward_user: None,
        forward_signature: None,
        forward_sender_name: None,
        chat_is_private: true,
        chat: ChatRef { username: None, title: None },
        from: Some(UserRef { username: None, full_name: s("Ann Lee") }),
    }
}

#[test]
fn message_source_prefers_forwards() {
    let mut o = origin();
    assert_eq!(get_message_source(&o), Some(s("Ann Lee")));
    o.from = Some(UserRef { username: Some(s("ann")), full_name: s("Ann Lee") });
    assert_eq!(get_message_source(&o), Some(s("@ann")));
    o.chat_is_private = false;
    o.chat = ChatRef { username: None, title: Some(s("Trading Group")) };
    assert_eq!(get_message_source(&o), Some(s("Trading Group")));
    o.forward_sender_name = Some(s("Hidden"));
    assert_eq!(get_message_source(&o), Some(s("Hidden")));
    o.forward_signature = Some(s("Editor"));
    assert_eq!(get_message_source(&o), Some(s("Editor")));
    o.forward_user = Some(UserRef { username: None, full_name: s("Bob") });
    assert_eq!(get_message_source(&o), Some(s("Bob")));
    o.forward_chat = Some(ChatRef { username: None, title: None });
    assert_eq!(get_message_source(&o), Some(s("Bob")));
    o.forward_chat = Some(ChatRef { username: Some(s("signals")), title: Some(s("Signals")) });
    assert_eq!(get_message_source(&o), Some(s("@signals")));
    let mut none = origin();
    none.from = None;
    assert_eq!(get_message_source(&none), None);
}

#[test]
fn intents_and_prompts() {
    assert_eq!(finance_intent("transaction"), FinanceIntent::Transaction);
    assert_eq!(finance_intent("question"), FinanceIntent::Question);
    assert_eq!(finance_intent("Transaction"), FinanceIntent::Unknown);
    let ms = intent_messages("BUY AAPL 10 @ 175");
    assert_eq!(ms.len(), 2);
    assert_eq!(ms[0].role, "system");
    assert_eq!(ms[0].content, finance_intent_prompt());
    assert_eq!(ms[1].content, "BUY AAPL 10 @ 175");
    assert!(default_finance_guide().starts_with("You are an expert financial ledger assistant."));
}

#[test]
fn sell_warnings() {
    assert_eq!(
        sell_warning(false, Some("X")),
        "⚠️ Note: You do not have an active open position for this asset in your ledger.\n\n"
    );
    assert_eq!(sell_warning(true, Some("Personal Port")), "ℹ️ Active position found in account: **Personal Port**.\n\n");
    assert_eq!(sell_warning(true, None), "");
    assert_eq!(transaction_reply("W ", "done"), "W done");
}

#[test]
fn transaction_conversation() {
    let ms = transaction_messages("AAPL", "GUIDE", "old note", "BUY 10", Some("@signals"), Some("![[F/A/x.jpg]]"));
    assert!(ms[0].content.contains("asset symbol: AAPL.\n"));
    assert!(ms[0].content.contains("<finance_guide>\nGUIDE\n</finance_guide>"));
    assert_eq!(
        ms[1].content,
        "Here is the current Obsidian note content for AAPL (it may be empty if this is the first transaction):\n=== CURRENT NOTE CONTENT ===\nold note\n============================\n\nThe new transaction message from the user is:\n\"BUY 10\"\n\nMessage source/origin: @signals\n(You MUST record this source in the transaction's Notes column.)\n\nAn image was attached. You MUST embed/link this image in the ledger using this exact markdown: ![[F/A/x.jpg]]\nPlease update the note and return the JSON object."
    );
    let plain = transaction_messages("BTC", "G", "", "SELL", None, None);
    assert!(plain[1].content.ends_with("\"SELL\"\n\n\n\nPlease update the note and return the JSON object."));
}

#[test]
fn portfolio_texts() {
    assert_eq!(ledger_file_name("aapl"), "AAPL.md");
    assert_eq!(portfolio_file_block("AAPL.md", "x", "\n"), "=== File: AAPL.md ===\nx\n");
    assert_eq!(no_record_text("btc"), "No record exists for the asset symbol: BTC.\n");
    assert!(no_portfolio_reply().starts_with("You don't have any portfolio tracking files yet."));
    let ms = portfolio_messages("G", "DATA", "Do I have AAPL?");
    assert_eq!(
        ms[1].content,
        "Here is the current portfolio data:\n=== PORTFOLIO DATA ===\nDATA\n======================\n\nUser question: \"Do I have AAPL?\"\nPlease answer."
    );
}

#[test]
fn finance_photo_texts() {
    assert_eq!(finance_photo_text(Some("Bought"), "a receipt"), "Bought [Image Details: a receipt]");
    assert_eq!(finance_photo_text(None, "a chart"), "[Attached photo describing: a chart]");
    assert_eq!(finance_photo_embed("Finance/Assets", "x.jpg"), "![[Finance/Assets/x.jpg]]");
}

fn fm(entries: &[(&str, Option<&str>)]) -> Vec<(String, Option<String>)> {
    entries.iter().map(|(k, v)| (k.to_string(), v.map(|s| s.to_string()))).collect()
}

#[test]
fn position_check_open_with_account() {
    let entries = fm(&[("symbol", Some("AAPL")), ("status", Some("open")), ("position_size", None), ("account", Some("Personal Port"))]);
    assert_eq!(position_check(true, Some("open"), &entries), (true, Some("Personal Port".to_string())));
}

#[test]
fn position_check_open_with_broker_or_portfolio() {
    let broker = fm(&[("status", Some("open")), ("broker", Some("Interactive Brokers"))]);
    assert_eq!(position_check(true, Some("open"), &broker), (true, Some("Interactive Brokers".to_string())));
    let portfolio = fm(&[("status", Some("open")), ("Portfolio", Some("Crypto Wallet"))]);
    assert_eq!(position_check(true, Some("open"), &portfolio), (true, Some("Crypto Wallet".to_string())));
}

#[test]
fn position_check_closed_position() {
    let entries = fm(&[("status", Some("closed")), ("account", Some("Personal Port"))]);
    let (open, account) = position_check(false, Some("closed"), &entries);
    assert!(!open);
    assert_eq!(account, Some("Personal Port".to_string()));
}

#[test]
fn position_check_status_open_alone_counts() {
    assert_eq!(position_check(false, Some("open"), &Vec::new()), (true, None));
}

#[test]
fn position_check_skips_account_key_without_text() {
    let entries = fm(&[("account", None), ("broker", Some("IBKR"))]);
    assert_eq!(position_check(false, None, &entries), (false, Some("IBKR".to_string())));
}

#[test]
fn finance_action_routes_by_intent() {
    assert!(matches!(finance_action("transaction", Some("aapl")), FinanceAction::UpdateLedger(ref s) if s == "AAPL"));
    assert!(matches!(
        finance_action("transaction", None),
        FinanceAction::Reply("⚠️ I recognized this is a transaction but couldn't extract the asset symbol. Please specify the symbol (e.g. AAPL, BTC).")
    ));
    assert!(matches!(finance_action("question", Some("BTC")), FinanceAction::Answer(Some(ref s)) if s == "BTC"));
    assert!(matches!(finance_action("question", None), FinanceAction::Answer(None)));
    assert!(matches!(
        finance_action("chitchat", Some("X")),
        FinanceAction::Reply("❓ I'm not sure how to process that. You can send me position transactions to log (e.g. BUY AAPL 10 shares @ 175) or ask me portfolio questions (e.g. Do I have AAPL?).")
    ));
}

#[test]
fn finance_photo_names_and_folder() {
    let name = obsidian_ai_agent::handlers::finance::finance_photo_file_name("2026-05-31");
    assert!(name.starts_with("2026-05-31-finance-"));
    assert!(name.ends_with(".jpg"));
    let suffix = &name["2026-05-31-finance-".len()..name.len() - 4];
    assert_eq!(suffix.len(), 4);
    assert!(suffix.chars().all(|c| c.is_ascii_digit() || ('a'..='f').contains(&c)));
    assert_eq!(obsidian_ai_agent::handlers::finance::finance_assets_folder("Finance", "Assets"), "Finance/Assets");
    assert_eq!(obsidian_ai_agent::handlers::finance::finance_assets_folder("Fin\\Sub", "A"), "Fin/Sub/A");
}

#[test]
fn ledger_fields_read_status_size_and_text_entries() {
    let (v, _) = obsidian_ai_agent::vault::frontmatter::parse_frontmatter(
        "---\nstatus: open\nposition_size: 12.5\nBroker: IBKR\nnotes: [a]\n---\nbody",
    );
    let f = obsidian_ai_agent::handlers::finance::ledger_fields(&v.expect("yaml")).expect("mapping");
    assert_eq!(f.status.as_deref(), Some("open"));
    assert_eq!(f.position_size.as_deref(), Some("12.5"));
    assert_eq!(
        f.entries,
        vec![
            ("status".to_string(), Some("open".to_string())),
            ("position_size".to_string(), None),
            ("Broker".to_string(), Some("IBKR".to_string())),
            ("notes".to_string(), None),
        ]
    );
    let text = obsidian_ai_agent::vault::yaml::YamlValue::Text("x".to_string());
    assert!(obsidian_ai_agent::handlers::finance::ledger_fields(&text).is_none());
}
