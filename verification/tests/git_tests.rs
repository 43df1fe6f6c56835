use obsidian_ai_agent::git::conflict::{resolution_action, ResolutionAction};
use obsidian_ai_agent::error::GitError;
use obsidian_ai_agent::git::conflict::{
    build_conflict_prompt, callback_data, parse_conflict_callback, resolved_message, ConflictResolution,
};
use obsidian_ai_agent::git::debounce::{
    debounce_step, initial_state, DebounceAction, DebounceEvent,
};
use obsidian_ai_agent::git::sync::{GitOutput, GitProgress, GitSync, SyncResult};

fn ok(stdout: &str) -> GitOutput {
    GitOutput { spawn_error: None, success: true, stdout: stdout.to_string(), stderr: String::new() }
}

fn failed(stderr: &str) -> GitOutput {
    GitOutput { spawn_error: None, success: false, stdout: String::new(), stderr: stderr.to_string() }
}

fn repo() -> GitSync {
    GitSync::new("/vault".to_string(), "origin".to_string(), "main".to_string(), None)
}

fn asked<T>(p: GitProgress<T>) -> Vec<String> {
    match p {
        GitProgress::Run(a) => a,
        GitProgress::Done(_) => panic!("expected a command"),
    }
}

fn done<T>(p: GitProgress<T>) -> Result<T, GitError> {
    match p {
        GitProgress::Done(r) => r,
        GitProgress::Run(a) => panic!("unexpected command {:?}", a),
    }
}

#[test]
fn full_sync_starts_with_status() {
    let g = repo();
    assert_eq!(asked(g.full_sync("2026-01-01 10:00:00", &vec![])), vec!["status", "--porcelain"]);
}

#[test]
fn full_sync_clean_tree_up_to_date_is_nothing_to_sync() {
    let g = repo();
    let ts = "2026-01-01 10:00:00";
    let mut outs = vec![ok("")];
    assert_eq!(asked(g.full_sync(ts, &outs)), vec!["fetch", "origin", "main"]);
    outs.push(ok(""));
    assert_eq!(asked(g.full_sync(ts, &outs)), vec!["rev-parse", "refs/heads/main"]);
    outs.push(ok("abc\n"));
    assert_eq!(asked(g.full_sync(ts, &outs)), vec!["rev-parse", "refs/remotes/origin/main"]);
    outs.push(ok("abc"));
    assert_eq!(done(g.full_sync(ts, &outs)), Ok(SyncResult::NothingToSync));
}

#[test]
fn full_sync_commits_and_pushes() {
    let g = repo();
    let ts = "2026-01-01 10:00:00";
    let mut outs = vec![ok(" M note.md\n")];
    assert_eq!(asked(g.full_sync(ts, &outs)), vec!["add", "--all"]);
    outs.push(ok(""));
    assert_eq!(
        asked(g.full_sync(ts, &outs)),
        vec![
            "commit",
            "-m",
            "Telegram sync: 2026-01-01 10:00:00",
            "--author",
            "Obsidian AI Agent <bot@obsidian-ai-agent>"
        ]
    );
    outs.push(ok(""));
    outs.push(ok(""));
    outs.push(ok("abc"));
    outs.push(ok("abc"));
    assert_eq!(asked(g.full_sync(ts, &outs)), vec!["push", "origin", "main"]);
    outs.push(ok(""));
    assert_eq!(done(g.full_sync(ts, &outs)), Ok(SyncResult::Pushed));
}

#[test]
fn full_sync_reports_conflict_after_failed_rebase() {
    let g = repo();
    let ts = "t";
    let outs = vec![
        ok(""),
        ok(""),
        ok("aaa"),
        ok("bbb"),
        ok("2"),
        ok("1"),
        failed("CONFLICT"),
        ok("UU note.md\n"),
        ok(""),
    ];
    assert_eq!(done(g.full_sync(ts, &outs)), Ok(SyncResult::ConflictDetected));
}

#[test]
fn fetch_failure_is_a_command_error() {
    let g = repo();
    assert_eq!(
        done(g.fetch(&vec![failed("  could not read  \n")])),
        Err(GitError::CommandFailed {
            command: "git fetch origin main".to_string(),
            message: "could not read".to_string()
        })
    );
    assert_eq!(done(g.push(&vec![ok("")])), Ok(()));
}

#[test]
fn conflicted_files_are_listed() {
    let g = repo();
    assert_eq!(asked(g.get_conflicted_files(&vec![])), vec!["diff", "--name-only", "--diff-filter=U"]);
    assert_eq!(
        done(g.get_conflicted_files(&vec![ok("a.md\n\n b.md \n")])),
        Ok(vec!["a.md".to_string(), "b.md".to_string()])
    );
}

#[test]
fn ssh_command_uses_the_key() {
    let g = GitSync::new("/v".to_string(), "origin".to_string(), "main".to_string(), Some("/k".to_string()));
    assert_eq!(g.ssh_command(), Some("ssh -i \"/k\" -o StrictHostKeyChecking=accept-new".to_string()));
    assert_eq!(repo().ssh_command(), None);
}

#[test]
fn sync_result_messages() {
    assert_eq!(SyncResult::NothingToSync.message(), "Nothing to sync");
    assert_eq!(SyncResult::ConflictDetected.message(), "Conflict detected");
}

#[test]
fn conflict_callback_round_trips() {
    for res in [ConflictResolution::Ours, ConflictResolution::Theirs, ConflictResolution::Abort] {
        let data = callback_data("abc", res);
        assert_eq!(parse_conflict_callback(&data), Some(("abc".to_string(), res)));
    }
    assert_eq!(callback_data("x", ConflictResolution::Theirs), "conflict:x:theirs");
    assert_eq!(parse_conflict_callback("conflict:x:maybe"), None);
    assert_eq!(parse_conflict_callback("conflict:x:ours:extra"), None);
    assert_eq!(parse_conflict_callback("other:x:ours"), None);
    assert_eq!(resolved_message(ConflictResolution::Abort), "✅ Conflict resolved: Rebase aborted");
}

#[test]
fn conflict_prompt_fits_in_one_message() {
    let files = vec!["a.md".to_string()];
    let p = build_conflict_prompt(&files, None, "diff");
    assert!(p.single);
    assert_eq!(
        p.full_message,
        "⚠️ <b>Git Conflict Detected</b>\n\n<b>Conflicting files:</b>\n  • a.md\n\n<b>Diff preview:</b>\n<pre>diff</pre>\n"
    );
    let long = "x".repeat(3000);
    let p2 = build_conflict_prompt(&files, Some("analysis"), &long);
    assert!(p2.full_message.contains("... (truncated)"));
    assert!(p2.simple_message.ends_with("(See diff above)"));
}

#[test]
fn debounce_waits_for_quiet_period() {
    let s0 = initial_state();
    let (s1, a1) = debounce_step(s0, DebounceEvent::Changed);
    assert_eq!(a1, DebounceAction::StartTimer);
    assert!(s1.pending);
    let (s2, a2) = debounce_step(s1, DebounceEvent::Changed);
    assert_eq!(a2, DebounceAction::StartTimer);
    let (s3, a3) = debounce_step(s2, DebounceEvent::QuietPeriodOver);
    assert_eq!(a3, DebounceAction::RunSync);
    assert!(!s3.pending);
}

#[test]
fn debounce_never_syncs_while_resolving() {
    let s0 = initial_state();
    let (s1, _) = debounce_step(s0, DebounceEvent::Changed);
    let (s2, _) = debounce_step(s1, DebounceEvent::QuietPeriodOver);
    let (s3, a3) = debounce_step(s2, DebounceEvent::SyncFinished(Some(SyncResult::ConflictDetected)));
    assert_eq!(a3, DebounceAction::AskResolution);
    assert!(s3.resolving);
    let (s4, _) = debounce_step(s3, DebounceEvent::Changed);
    let (s5, a5) = debounce_step(s4, DebounceEvent::QuietPeriodOver);
    assert_eq!(a5, DebounceAction::WaitForChange);
    let (_, a6) = debounce_step(s5, DebounceEvent::Resolved(ConflictResolution::Ours, true));
    assert_eq!(a6, DebounceAction::RunSync);
    let (_, a7) = debounce_step(s5, DebounceEvent::Resolved(ConflictResolution::Abort, true));
    assert_eq!(a7, DebounceAction::WaitForChange);
}

#[test]
fn debounce_flushes_on_close() {
    let (s1, _) = debounce_step(initial_state(), DebounceEvent::Changed);
    let (s2, a2) = debounce_step(s1, DebounceEvent::ChannelClosed);
    assert_eq!(a2, DebounceAction::RunSync);
    let (_, a3) = debounce_step(s2, DebounceEvent::SyncFinished(Some(SyncResult::Pushed)));
    assert_eq!(a3, DebounceAction::Stop);
    let (_, a4) = debounce_step(initial_state(), DebounceEvent::ChannelClosed);
    assert_eq!(a4, DebounceAction::Stop);
}

#[test]
fn has_changes_reads_porcelain_status() {
    let g = repo();
    assert_eq!(asked(g.has_changes(&vec![])), vec!["status", "--porcelain"]);
    assert_eq!(done(g.has_changes(&vec![ok("  \n")])), Ok(false));
    assert_eq!(done(g.has_changes(&vec![ok(" M a.md\n")])), Ok(true));
    assert!(done(g.has_changes(&vec![failed("fatal: not a git repository")])).is_err());
}

#[test]
fn run_git_reports_spawn_failures() {
    let g = repo();
    let args = vec!["status".chars().collect::<Vec<char>>()];
    let spawn = GitOutput {
        spawn_error: Some("No such file".to_string()),
        success: false,
        stdout: String::new(),
        stderr: String::new(),
    };
    assert_eq!(
        g.run_git(&args, &spawn),
        Err(GitError::CommandFailed {
            command: "git status".to_string(),
            message: "Failed to execute: No such file".to_string()
        })
    );
    assert_eq!(g.run_git(&args, &ok("out")), Ok("out".to_string()));
}

#[test]
fn one_sync_per_burst_of_changes() {
    let mut s = initial_state();
    let mut actions = Vec::new();
    for e in [DebounceEvent::Changed, DebounceEvent::Changed, DebounceEvent::Changed, DebounceEvent::QuietPeriodOver] {
        let (next, a) = debounce_step(s, e);
        s = next;
        actions.push(a);
    }
    assert_eq!(
        actions,
        vec![DebounceAction::StartTimer, DebounceAction::StartTimer, DebounceAction::StartTimer, DebounceAction::RunSync]
    );
    let (_, a) = debounce_step(s, DebounceEvent::QuietPeriodOver);
    assert_eq!(a, DebounceAction::WaitForChange);
}

#[test]
fn resolutions_map_to_git_operations() {
    assert_eq!(resolution_action(ConflictResolution::Ours), ResolutionAction::ForcePush);
    assert_eq!(resolution_action(ConflictResolution::Theirs), ResolutionAction::ResetToRemote);
    assert_eq!(resolution_action(ConflictResolution::Abort), ResolutionAction::Nothing);
}

#[test]
fn listing_lines_are_trimmed_and_empty_ones_dropped() {
    let names = obsidian_ai_agent::git::sync::listed_lines(&" a.md \n\n  \nb/c.md\n".to_string());
    assert_eq!(names, vec!["a.md".to_string(), "b/c.md".to_string()]);
}

#[test]
fn sync_timestamp_has_date_and_minute() {
    let t = obsidian_ai_agent::clock::sync_timestamp();
    let c: Vec<char> = t.chars().collect();
    assert_eq!(c.len(), 16);
    for (i, ch) in c.iter().enumerate() {
        match i {
            4 | 7 => assert_eq!(*ch, '-'),
            10 => assert_eq!(*ch, ' '),
            13 => assert_eq!(*ch, ':'),
            _ => assert!(ch.is_ascii_digit()),
        }
    }
    let d = obsidian_ai_agent::clock::today_ymd();
    assert_eq!(d.len(), 10);
    assert_eq!(&d[4..5], "-");
}
