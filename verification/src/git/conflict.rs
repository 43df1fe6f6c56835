//! The conflict dialogue: the message that asks how to resolve a merge
//! conflict, the buttons' callback data, and the reading of the answer.
use vstd::prelude::*;
use crate::text::{
    chars_of, chars_of_string, first_index, index_of, join, join_parts, push_all, push_str,
    slice_of, starts_with, string_of, string_views, views,
};
use crate::utils::{fitting_prefix_len, utf8_len};

verus! {

/// Resolution strategy for a git conflict
#[derive(Debug, Clone, Copy, PartialEq, Eq, Structural)]
pub enum ConflictResolution {
    Ours,
    Theirs,
    Abort,
}

/// What carrying out a resolution does to the repository.
#[derive(Debug, Clone, Copy, PartialEq, Eq, Structural)]
pub enum ResolutionAction {
    /// Push the local branch over the remote one.
    ForcePush,
    /// Fetch and reset the working tree to the remote branch.
    ResetToRemote,
    /// Leave the repository as it is.
    Nothing,
}

/// The git operation a resolution calls for: keeping the local version
/// force-pushes it, taking the remote one resets to it, aborting does
/// nothing.
pub fn resolution_action(r: ConflictResolution) -> (a: ResolutionAction)
    ensures
        a == match r {
            ConflictResolution::Ours => ResolutionAction::ForcePush,
            ConflictResolution::Theirs => ResolutionAction::ResetToRemote,
            ConflictResolution::Abort => ResolutionAction::Nothing,
        },
{
    match r {
        ConflictResolution::Ours => ResolutionAction::ForcePush,
        ConflictResolution::Theirs => ResolutionAction::ResetToRemote,
        ConflictResolution::Abort => ResolutionAction::Nothing,
    }
}

/// The word a resolution is encoded with in callback data.
pub open spec fn resolution_word(r: ConflictResolution) -> Seq<char> {
    match r {
        ConflictResolution::Ours => "ours"@,
        ConflictResolution::Theirs => "theirs"@,
        ConflictResolution::Abort => "abort"@,
    }
}

/// The callback data of the button choosing `r` for the conflict `id`.
pub open spec fn callback_data_for(id: Seq<char>, r: ConflictResolution) -> Seq<char> {
    "conflict:"@ + id + ":"@ + resolution_word(r)
}

/// The callback data of the button choosing `res` for the conflict `id`.
pub fn callback_data(id: &str, res: ConflictResolution) -> (r: String)
    ensures
        r@ == callback_data_for(id@, res),
{
    let mut out = chars_of("conflict:");
    push_str(&mut out, id);
    push_str(&mut out, ":");
    match res {
        ConflictResolution::Ours => push_str(&mut out, "ours"),
        ConflictResolution::Theirs => push_str(&mut out, "theirs"),
        ConflictResolution::Abort => push_str(&mut out, "abort"),
    }
    string_of(&out)
}

/// The resolution named by a word.
pub open spec fn resolution_named(w: Seq<char>) -> Option<ConflictResolution> {
    if w == "ours"@ {
        Some(ConflictResolution::Ours)
    } else if w == "theirs"@ {
        Some(ConflictResolution::Theirs)
    } else if w == "abort"@ {
        Some(ConflictResolution::Abort)
    } else {
        None
    }
}

/// The conflict id and resolution of callback data `conflict:<id>:<word>`
/// (exactly three `:`-separated parts and a known word), if it is one.
pub open spec fn conflict_callback(data: Seq<char>) -> Option<(Seq<char>, ConflictResolution)> {
    if !starts_with(data, "conflict:"@) {
        None
    } else {
        let rest = data.skip("conflict:"@.len() as int);
        match first_index(rest, ':') {
            None => None,
            Some(k) => {
                let id = rest.take(k);
                let word = rest.skip(k + 1);
                if first_index(word, ':') is Some {
                    None
                } else {
                    match resolution_named(word) {
                        Some(r) => Some((id, r)),
                        None => None,
                    }
                }
            },
        }
    }
}

/// Reads the data of a conflict button.
pub fn parse_conflict_callback(data: &str) -> (r: Option<(String, ConflictResolution)>)
    ensures
        match conflict_callback(data@) {
            Some((id, res)) => r matches Some((i, x)) && i@ == id && x == res,
            None => r is None,
        },
{
    let v = chars_of(data);
    let prefix = chars_of("conflict:");
    if !crate::text::has_prefix(&v, &prefix) {
        return None;
    }
    let rest = slice_of(&v, prefix.len(), v.len());
    assert(rest@ =~= data@.skip("conflict:"@.len() as int));
    let k = match index_of(&rest, ':') {
        Some(k) => k,
        None => return None,
    };
    proof {
        crate::text::lemma_first_index(rest@, ':');
    }
    let id = slice_of(&rest, 0, k);
    let word = slice_of(&rest, k + 1, rest.len());
    assert(id@ =~= rest@.take(k as int));
    assert(word@ =~= rest@.skip(k + 1));
    if index_of(&word, ':').is_some() {
        return None;
    }
    let same = |a: &Vec<char>, b: &str| -> (r: bool)
        ensures
            r == (a@ == b@),
        { crate::url::detect::same_chars(a, &chars_of(b)) };
    let res = if same(&word, "ours") {
        ConflictResolution::Ours
    } else if same(&word, "theirs") {
        ConflictResolution::Theirs
    } else if same(&word, "abort") {
        ConflictResolution::Abort
    } else {
        return None;
    };
    Some((string_of(&id), res))
}

/// Reading a conflict button's data gives back the conflict id and the
/// resolution it was made from, for any id without a `:`.
pub proof fn lemma_conflict_callback_round_trip(id: Seq<char>, r: ConflictResolution)
    requires
        forall|i: int| 0 <= i < id.len() ==> id[i] != ':',
    ensures
        conflict_callback(callback_data_for(id, r)) == Some((id, r)),
{
    reveal_strlit("conflict:");
    reveal_strlit(":");
    reveal_strlit("ours");
    reveal_strlit("theirs");
    reveal_strlit("abort");
    let data = callback_data_for(id, r);
    let p = "conflict:"@;
    let word = resolution_word(r);
    assert(data.subrange(0, p.len() as int) =~= p);
    let rest = data.skip(p.len() as int);
    assert(rest =~= id + ":"@ + word);
    crate::text::lemma_first_index(rest, ':');
    assert(rest[id.len() as int] == ':');
    match first_index(rest, ':') {
        Some(k) => {
            if k < id.len() {
                assert(rest[k] == id[k]);
            }
            if k > id.len() {
                assert(rest[id.len() as int] != ':');
            }
            assert(k == id.len());
            assert(rest.take(k) =~= id);
            assert(rest.skip(k + 1) =~= word);
            crate::text::lemma_first_index(word, ':');
            match first_index(word, ':') {
                Some(j) => {
                    assert(word[j] == ':');
                },
                None => {},
            }
        },
        None => {
            assert(rest[id.len() as int] != ':');
        },
    }
}

/// What the user is told a resolution does.
pub open spec fn resolution_label(r: ConflictResolution) -> Seq<char> {
    match r {
        ConflictResolution::Ours => "Using your local version"@,
        ConflictResolution::Theirs => "Using server version"@,
        ConflictResolution::Abort => "Rebase aborted"@,
    }
}

/// What the user is told a resolution does.
pub fn resolution_text(r: ConflictResolution) -> (s: &'static str)
    ensures
        s@ == resolution_label(r),
{
    match r {
        ConflictResolution::Ours => "Using your local version",
        ConflictResolution::Theirs => "Using server version",
        ConflictResolution::Abort => "Rebase aborted",
    }
}

/// The text the conflict message is replaced with once resolved.
pub fn resolved_message(r: ConflictResolution) -> (s: String)
    ensures
        s@ == "✅ Conflict resolved: "@ + resolution_label(r),
{
    let mut out = chars_of("✅ Conflict resolved: ");
    push_str(&mut out, resolution_text(r));
    string_of(&out)
}

/// `s` cut to at most `max` UTF-8 bytes at a character boundary followed
/// by `marker`, or `s` itself when it fits; `k` characters are kept.
pub open spec fn cut_with_marker(s: Seq<char>, max: nat, marker: Seq<char>, k: int) -> Seq<char> {
    if utf8_len(s) <= max {
        s
    } else {
        s.take(k) + marker
    }
}

/// Cuts `s` to at most `max` bytes and appends `marker` when it is longer.
pub fn cut_marked(s: &str, max: usize, marker: &str) -> (r: String)
    ensures
        exists|k: int|
            crate::ai::conflict::fitting_prefix(s@, max as nat, k) && r@ == cut_with_marker(
                s@,
                max as nat,
                marker@,
                k,
            ),
{
    let chars = chars_of(s);
    let k = fitting_prefix_len(&chars, max);
    if k == chars.len() {
        assert(chars@.take(k as int) =~= chars@);
        assert(crate::ai::conflict::fitting_prefix(s@, max as nat, k as int));
        return s.to_owned();
    }
    let mut out = slice_of(&chars, 0, k);
    push_str(&mut out, marker);
    proof {
        crate::utils::lemma_utf8_len_prefix_le(chars@, chars.len() as int);
        assert(chars@.take(chars.len() as int) =~= chars@);
        assert(utf8_len(chars@.take(k + 1)) <= utf8_len(chars@.take(chars.len() as int)));
        assert(chars@.subrange(0, k as int) =~= chars@.take(k as int));
    }
    assert(crate::ai::conflict::fitting_prefix(s@, max as nat, k as int));
    string_of(&out)
}

/// The list of conflicting files, one `  • name` per line.
pub open spec fn files_list(files: Seq<Seq<char>>) -> Seq<char> {
    join(Seq::new(files.len(), |i: int| "  • "@ + files[i]), "\n"@)
}

/// The header and file list of the conflict message, and the AI analysis when present.
pub open spec fn conflict_intro(files: Seq<Seq<char>>, analysis: Option<Seq<char>>) -> Seq<char> {
    "⚠️ <b>Git Conflict Detected</b>\n"@ + "\n<b>Conflicting files:</b>\n"@ + files_list(files) + "\n"@
        + match analysis {
        Some(a) => "\n🤖 <b>AI Analysis:</b>\n"@ + a + "\n"@,
        None => Seq::empty(),
    }
}

/// The messages that ask how to resolve a conflict.
#[derive(Debug, Clone)]
pub struct ConflictPrompt {
    /// Whether everything fits in one message of at most 4096 bytes.
    pub single: bool,
    /// The single message (intro and diff preview).
    pub full_message: String,
    /// When split: the diff preview sent first.
    pub diff_message: String,
    /// When split: the intro, pointing at the diff above.
    pub simple_message: String,
}

/// The conflict prompt for the given files, analysis and (already cut) diff.
pub open spec fn conflict_prompt_holds(p: ConflictPrompt, files: Seq<Seq<char>>, analysis: Option<Seq<char>>, diff: Seq<char>) -> bool {
    let full = conflict_intro(files, analysis) + "\n<b>Diff preview:</b>\n<pre>"@ + diff + "</pre>\n"@;
    &&& p.full_message@ == full
    &&& p.single == (utf8_len(full) <= 4096)
    &&& p.diff_message@ == "<b>Diff preview:</b>\n<pre>"@ + diff + "</pre>"@
    &&& p.simple_message@ == conflict_intro(files, analysis) + "\n(See diff above)"@
}

/// Builds the messages asking how to resolve a conflict: the diff preview
/// cut to 2500 bytes, and everything in one message when that fits in 4096
/// bytes, else the diff first and the rest after it.
pub fn build_conflict_prompt(files: &Vec<String>, ai_analysis: Option<&str>, diff_preview: &str) -> (r: ConflictPrompt)
    ensures
        exists|k: int|
            crate::ai::conflict::fitting_prefix(diff_preview@, 2500, k) && conflict_prompt_holds(
                r,
                string_views(files@),
                crate::text::opt_str_view(ai_analysis),
                cut_with_marker(diff_preview@, 2500, "\n... (truncated)"@, k),
            ),
{
    let diff = cut_marked(diff_preview, 2500, "\n... (truncated)");
    let mut lines: Vec<Vec<char>> = Vec::new();
    let mut i: usize = 0;
    let ghost fs = string_views(files@);
    while i < files.len()
        invariant
            i <= files.len(),
            fs == string_views(files@),
            views(lines@) == Seq::new(files.len() as nat, |j: int| "  • "@ + fs[j]).take(i as int),
        decreases files.len() - i,
    {
        let mut l = chars_of("  • ");
        push_str(&mut l, files[i].as_str());
        let ghost before = views(lines@);
        lines.push(l);
        assert(views(lines@) =~= before.push("  • "@ + fs[i as int]));
        i = i + 1;
        assert(views(lines@) =~= Seq::new(files.len() as nat, |j: int| "  • "@ + fs[j]).take(i as int));
    }
    assert(Seq::new(files.len() as nat, |j: int| "  • "@ + fs[j]).take(files.len() as int) =~= Seq::new(files.len() as nat, |j: int| "  • "@ + fs[j]));
    let nl = chars_of("\n");
    let list = join_parts(&lines, &nl);
    let mut intro = chars_of("⚠️ <b>Git Conflict Detected</b>\n");
    push_str(&mut intro, "\n<b>Conflicting files:</b>\n");
    push_all(&mut intro, &list);
    push_str(&mut intro, "\n");
    if let Some(a) = ai_analysis {
        push_str(&mut intro, "\n🤖 <b>AI Analysis:</b>\n");
        push_str(&mut intro, a);
        push_str(&mut intro, "\n");
    }
    proof {
        assert(intro@ =~= conflict_intro(fs, crate::text::opt_str_view(ai_analysis)));
    }
    let mut full = intro.clone();
    push_str(&mut full, "\n<b>Diff preview:</b>\n<pre>");
    push_str(&mut full, diff.as_str());
    push_str(&mut full, "</pre>\n");
    let full_s = string_of(&full);
    let single = crate::utils::utf8_len_of(&full) <= 4096;
    let mut dm = chars_of("<b>Diff preview:</b>\n<pre>");
    push_str(&mut dm, diff.as_str());
    push_str(&mut dm, "</pre>");
    let mut simple = intro;
    push_str(&mut simple, "\n(See diff above)");
    ConflictPrompt {
        single,
        full_message: full_s,
        diff_message: string_of(&dm),
        simple_message: string_of(&simple),
    }
}

/// The note sent when nobody answered within thirty minutes.
pub fn timeout_notice() -> (r: &'static str)
    ensures
        r@ == "⏰ Conflict resolution timed out after 30 minutes. The conflict is still present — next sync attempt will re-detect it."@,
{
    "⏰ Conflict resolution timed out after 30 minutes. The conflict is still present — next sync attempt will re-detect it."
}

/// How a conflict dialogue ended.
#[derive(Debug, Clone, Copy, PartialEq, Eq, Structural)]
pub enum DialogueEnd {
    /// The user pressed a button.
    Answered(ConflictResolution),
    /// The waiting side was dropped.
    Closed,
    /// Nobody answered within thirty minutes.
    TimedOut,
}

/// What a conflict dialogue gives: the chosen resolution, or the reason
/// there is none, and the note to send to the chat (only on a timeout).
pub fn dialogue_result(end: DialogueEnd) -> (r: (Result<ConflictResolution, &'static str>, Option<&'static str>))
    ensures
        match end {
            DialogueEnd::Answered(res) => r.0 == Ok::<ConflictResolution, &'static str>(res) && r.1 is None,
            DialogueEnd::Closed => (r.0 matches Err(m) && m@ == "Conflict resolution channel closed"@) && r.1 is None,
            DialogueEnd::TimedOut => (r.0 matches Err(m) && m@ == "Conflict resolution timed out after 30 minutes"@)
                && (r.1 matches Some(n) && n@ == "⏰ Conflict resolution timed out after 30 minutes. The conflict is still present — next sync attempt will re-detect it."@),
        },
{
    match end {
        DialogueEnd::Answered(res) => (Ok(res), None),
        DialogueEnd::Closed => (Err("Conflict resolution channel closed"), None),
        DialogueEnd::TimedOut => (Err("Conflict resolution timed out after 30 minutes"), Some(timeout_notice())),
    }
}

} // verus!
