//! The git command protocol of a vault sync. Every operation is a pure
//! function of the outputs of the commands it has asked for so far: it
//! either asks for the next `git` command or gives its result. The caller
//! runs the commands and feeds their outputs back.
use vstd::prelude::*;
use crate::error::GitError;
use crate::text::{
    chars_of, chars_of_string, contains, has_substring, join, join_parts, lines, parse_unsigned,
    parsed_unsigned, push_str, split_lines, string_of, trim, trimmed, views,
};

verus! {

/// Manages git operations for the Obsidian vault using the git CLI
#[derive(Debug, Clone)]
pub struct GitSync {
    pub repo_path: String,
    pub remote_name: String,
    pub branch: String,
    pub ssh_key_path: Option<String>,
}

/// How a git command ended.
#[derive(Debug, Clone)]
pub struct GitOutput {
    /// The command could not be started, for this reason.
    pub spawn_error: Option<String>,
    /// The command exited successfully.
    pub success: bool,
    pub stdout: String,
    pub stderr: String,
}

/// The next step of a git operation.
#[derive(Debug)]
pub enum GitProgress<T> {
    /// Run `git` with these arguments and report its output.
    Run(Vec<String>),
    /// The operation is over.
    Done(Result<T, GitError>),
}

/// The outcome of a sync cycle.
#[derive(Debug, Clone, Copy, PartialEq, Eq, Structural)]
pub enum SyncResult {
    NothingToSync,
    Pushed,
    PushedWithoutFetch,
    RebasedAndPushed,
    ConflictDetected,
}

/// The text a sync outcome is reported with.
pub open spec fn sync_result_text(r: SyncResult) -> Seq<char> {
    match r {
        SyncResult::NothingToSync => "Nothing to sync"@,
        SyncResult::Pushed => "Changes pushed"@,
        SyncResult::PushedWithoutFetch => "Pushed (fetch failed)"@,
        SyncResult::RebasedAndPushed => "Rebased and pushed"@,
        SyncResult::ConflictDetected => "Conflict detected"@,
    }
}

impl SyncResult {
    /// The text this outcome is reported with.
    pub fn message(&self) -> (r: &'static str)
        ensures
            r@ == sync_result_text(*self),
    {
        match self {
            SyncResult::NothingToSync => "Nothing to sync",
            SyncResult::Pushed => "Changes pushed",
            SyncResult::PushedWithoutFetch => "Pushed (fetch failed)",
            SyncResult::RebasedAndPushed => "Rebased and pushed",
            SyncResult::ConflictDetected => "Conflict detected",
        }
    }
}

/// The shell form `git a b c` of a command.
pub open spec fn command_line(args: Seq<Seq<char>>) -> Seq<char> {
    "git "@ + join(args, seq![' '])
}

/// What a command's output means: its standard output, or the failure as
/// (command line, message).
pub open spec fn git_outcome(args: Seq<Seq<char>>, o: GitOutput) -> Result<Seq<char>, (Seq<char>, Seq<char>)> {
    match o.spawn_error {
        Some(e) => Err((command_line(args), "Failed to execute: "@ + e@)),
        None => if !o.success {
            Err((command_line(args), trim(o.stderr@)))
        } else {
            Ok(o.stdout@)
        },
    }
}

/// A git error that is the failure (command line, message).
pub open spec fn is_failure(e: GitError, f: (Seq<char>, Seq<char>)) -> bool {
    e matches GitError::CommandFailed { command, message } && command@ == f.0 && message@ == f.1
}

/// A finished operation whose result is `Ok(v)` or the failure `f`.
pub open spec fn done_as<T>(p: GitProgress<T>, r: Result<T, (Seq<char>, Seq<char>)>) -> bool {
    match r {
        Ok(v) => p matches GitProgress::Done(Ok(x)) && x == v,
        Err(f) => p matches GitProgress::Done(Err(e)) && is_failure(e, f),
    }
}

/// The command line of a command, as run.
pub fn command_text(args: &Vec<Vec<char>>) -> (r: String)
    ensures
        r@ == command_line(views(args@)),
{
    let mut out = chars_of("git ");
    let sep: Vec<char> = vec![' '];
    assert(sep@ =~= seq![' ']);
    let j = join_parts(args, &sep);
    crate::text::push_all(&mut out, &j);
    string_of(&out)
}

fn words(a: &str, b: &str) -> (r: Vec<Vec<char>>)
    ensures
        views(r@) == seq![a@, b@],
{
    let mut v: Vec<Vec<char>> = Vec::new();
    v.push(chars_of(a));
    v.push(chars_of(b));
    assert(views(v@) =~= seq![a@, b@]);
    v
}

fn words3(a: &str, b: &str, c: &str) -> (r: Vec<Vec<char>>)
    ensures
        views(r@) == seq![a@, b@, c@],
{
    let mut v = words(a, b);
    let ghost before = views(v@);
    let cv = chars_of(c);
    v.push(cv);
    assert(views(v@) =~= before.push(cv@));
    assert(views(v@) =~= seq![a@, b@, c@]);
    v
}

fn words4(a: &str, b: &str, c: &str, d: &str) -> (r: Vec<Vec<char>>)
    ensures
        views(r@) == seq![a@, b@, c@, d@],
{
    let mut v = words3(a, b, c);
    let ghost before = views(v@);
    let dv = chars_of(d);
    v.push(dv);
    assert(views(v@) =~= before.push(dv@));
    assert(views(v@) =~= seq![a@, b@, c@, d@]);
    v
}

fn as_strings(v: &Vec<Vec<char>>) -> (r: Vec<String>)
    ensures
        crate::text::string_views(r@) == views(v@),
{
    let mut out: Vec<String> = Vec::new();
    let mut i: usize = 0;
    while i < v.len()
        invariant
            i <= v.len(),
            crate::text::string_views(out@) == views(v@).take(i as int),
        decreases v.len() - i,
    {
        let ghost before = crate::text::string_views(out@);
        out.push(string_of(&v[i]));
        assert(crate::text::string_views(out@) =~= before.push(v@[i as int]@));
        i = i + 1;
        assert(crate::text::string_views(out@) =~= views(v@).take(i as int));
    }
    assert(views(v@).take(v.len() as int) =~= views(v@));
    out
}

fn ask<T>(args: &Vec<Vec<char>>) -> (r: GitProgress<T>)
    ensures
        r matches GitProgress::Run(a) && crate::text::string_views(a@) == views(args@),
{
    GitProgress::Run(as_strings(args))
}

/// A step asking for the command `args`.
pub open spec fn asks<T>(p: GitProgress<T>, args: Seq<Seq<char>>) -> bool {
    p matches GitProgress::Run(a) && crate::text::string_views(a@) == args
}

/// `refs/heads/<branch>`.
pub open spec fn local_ref(branch: Seq<char>) -> Seq<char> {
    "refs/heads/"@ + branch
}

/// `refs/remotes/<remote>/<branch>`.
pub open spec fn remote_ref(remote: Seq<char>, branch: Seq<char>) -> Seq<char> {
    "refs/remotes/"@ + remote + "/"@ + branch
}

/// The number a `rev-list --count` printed, zero when it is not one.
pub open spec fn count_of(out: Seq<char>) -> nat {
    match parsed_unsigned(trim(out), usize::MAX as nat) {
        Some(n) => n,
        None => 0,
    }
}

/// A porcelain status naming a conflicted file (`UU `, `AA ` or `DD `).
pub open spec fn has_conflict_marks(status: Seq<char>) -> bool {
    contains(status, "UU "@) || contains(status, "AA "@) || contains(status, "DD "@)
}

/// The commit message of a sync commit made at `timestamp`.
pub open spec fn commit_message(timestamp: Seq<char>) -> Seq<char> {
    "Telegram sync: "@ + timestamp
}

/// The lines of a listing, trimmed, without empty ones.
pub open spec fn listed_names(ls: Seq<Seq<char>>) -> Seq<Seq<char>>
    decreases ls.len(),
{
    if ls.len() == 0 {
        Seq::empty()
    } else {
        let rest = listed_names(ls.drop_last());
        if trim(ls.last()).len() == 0 {
            rest
        } else {
            rest.push(trim(ls.last()))
        }
    }
}

/// A git command that started and exited successfully.
pub open spec fn ran_ok(o: GitOutput) -> bool {
    o.spawn_error is None && o.success
}

/// A step of a git operation, as contracts speak of it.
pub enum GitStep<T> {
    /// Ask for the command with these arguments.
    Ask(Seq<Seq<char>>),
    /// The operation's result, failures as (command line, message).
    Finish(Result<T, (Seq<char>, Seq<char>)>),
}

/// An executable step standing for a contract step.
pub open spec fn step_is<T>(p: GitProgress<T>, s: GitStep<T>) -> bool {
    match s {
        GitStep::Ask(a) => asks(p, a),
        GitStep::Finish(r) => done_as(p, r),
    }
}

/// A one-command operation over the outputs from index `from`, and how
/// many outputs it used once finished.
pub open spec fn single_step(args: Seq<Seq<char>>, os: Seq<GitOutput>, from: int) -> (GitStep<()>, int) {
    if os.len() <= from {
        (GitStep::Ask(args), 0)
    } else {
        match git_outcome(args, os[from]) {
            Ok(_) => (GitStep::Finish(Ok(())), 1),
            Err(f) => (GitStep::Finish(Err(f)), 1),
        }
    }
}

/// The divergence check: compare the local and remote heads, then count
/// the commits the local branch is behind.
pub open spec fn needs_rebase_step(remote: Seq<char>, branch: Seq<char>, os: Seq<GitOutput>, from: int) -> (GitStep<bool>, int) {
    let lr = local_ref(branch);
    let rr = remote_ref(remote, branch);
    let a0 = seq!["rev-parse"@, lr];
    let a1 = seq!["rev-parse"@, rr];
    let a2 = seq!["rev-list"@, "--count"@, lr + ".."@ + rr];
    let a3 = seq!["rev-list"@, "--count"@, rr + ".."@ + lr];
    if os.len() <= from {
        (GitStep::Ask(a0), 0)
    } else {
        match git_outcome(a0, os[from]) {
            Err(_) => (GitStep::Finish(Ok(false)), 1),
            Ok(l) => if os.len() <= from + 1 {
                (GitStep::Ask(a1), 0)
            } else {
                match git_outcome(a1, os[from + 1]) {
                    Err(_) => (GitStep::Finish(Ok(false)), 2),
                    Ok(rm) => if trim(l) == trim(rm) {
                        (GitStep::Finish(Ok(false)), 2)
                    } else if os.len() <= from + 2 {
                        (GitStep::Ask(a2), 0)
                    } else {
                        match git_outcome(a2, os[from + 2]) {
                            Err(f) => (GitStep::Finish(Err(f)), 3),
                            Ok(b) => if os.len() <= from + 3 {
                                (GitStep::Ask(a3), 0)
                            } else {
                                match git_outcome(a3, os[from + 3]) {
                                    Err(f) => (GitStep::Finish(Err(f)), 4),
                                    Ok(_) => (GitStep::Finish(Ok(count_of(b) > 0)), 4),
                                }
                            },
                        }
                    },
                }
            },
        }
    }
}

/// The rebase: rebase onto the remote branch; on failure look at the
/// status and abort; conflict marks mean `false`, anything else the failure.
pub open spec fn rebase_step(remote: Seq<char>, branch: Seq<char>, os: Seq<GitOutput>, from: int) -> (GitStep<bool>, int) {
    let a0 = seq!["rebase"@, remote + "/"@ + branch];
    let a1 = seq!["status"@, "--porcelain"@];
    let a2 = seq!["rebase"@, "--abort"@];
    if os.len() <= from {
        (GitStep::Ask(a0), 0)
    } else {
        match git_outcome(a0, os[from]) {
            Ok(_) => (GitStep::Finish(Ok(true)), 1),
            Err(f0) => if os.len() <= from + 1 {
                (GitStep::Ask(a1), 0)
            } else if os.len() <= from + 2 {
                (GitStep::Ask(a2), 0)
            } else {
                let status = match git_outcome(a1, os[from + 1]) {
                    Ok(st) => st,
                    Err(_) => Seq::empty(),
                };
                if has_conflict_marks(status) {
                    (GitStep::Finish(Ok(false)), 3)
                } else {
                    (GitStep::Finish(Err(f0)), 3)
                }
            },
        }
    }
}

/// The author of sync commits.
pub open spec fn commit_author() -> Seq<char> {
    "Obsidian AI Agent <bot@obsidian-ai-agent>"@
}

/// Staging and committing: nothing when the status is clean, else add
/// everything and commit with the sync message.
pub open spec fn stage_step(timestamp: Seq<char>, os: Seq<GitOutput>, from: int) -> (GitStep<bool>, int) {
    let a0 = seq!["status"@, "--porcelain"@];
    let a1 = seq!["add"@, "--all"@];
    let a2 = seq!["commit"@, "-m"@, commit_message(timestamp), "--author"@, commit_author()];
    if os.len() <= from {
        (GitStep::Ask(a0), 0)
    } else {
        match git_outcome(a0, os[from]) {
            Err(f) => (GitStep::Finish(Err(f)), 1),
            Ok(st) => if trim(st).len() == 0 {
                (GitStep::Finish(Ok(false)), 1)
            } else if os.len() <= from + 1 {
                (GitStep::Ask(a1), 0)
            } else {
                match git_outcome(a1, os[from + 1]) {
                    Err(f) => (GitStep::Finish(Err(f)), 2),
                    Ok(_) => if os.len() <= from + 2 {
                        (GitStep::Ask(a2), 0)
                    } else {
                        match git_outcome(a2, os[from + 2]) {
                            Err(f) => (GitStep::Finish(Err(f)), 3),
                            Ok(_) => (GitStep::Finish(Ok(true)), 3),
                        }
                    },
                }
            },
        }
    }
}

/// The last stage of a sync: push when something was committed, reporting `result`.
pub open spec fn push_then(remote: Seq<char>, branch: Seq<char>, committed: bool, os: Seq<GitOutput>, from: int, result: SyncResult) -> GitStep<SyncResult> {
    if committed {
        match single_step(seq!["push"@, remote, branch], os, from).0 {
            GitStep::Ask(a) => GitStep::Ask(a),
            GitStep::Finish(Err(f)) => GitStep::Finish(Err(f)),
            GitStep::Finish(Ok(_)) => GitStep::Finish(Ok(result)),
        }
    } else {
        GitStep::Finish(Ok(if result == SyncResult::Pushed { SyncResult::NothingToSync } else { result }))
    }
}

/// The full sync cycle: stage and commit, fetch (on failure push what was
/// committed and stop), rebase onto the remote when behind and force push,
/// or push a new commit.
pub open spec fn full_sync_step(remote: Seq<char>, branch: Seq<char>, timestamp: Seq<char>, os: Seq<GitOutput>) -> GitStep<SyncResult> {
    let (s1, c1) = stage_step(timestamp, os, 0);
    match s1 {
        GitStep::Ask(a) => GitStep::Ask(a),
        GitStep::Finish(Err(f)) => GitStep::Finish(Err(f)),
        GitStep::Finish(Ok(committed)) => {
            let (s2, c2) = single_step(seq!["fetch"@, remote, branch], os, c1);
            match s2 {
                GitStep::Ask(a) => GitStep::Ask(a),
                GitStep::Finish(Err(_)) => push_then(remote, branch, committed, os, c1 + c2, SyncResult::PushedWithoutFetch),
                GitStep::Finish(Ok(_)) => {
                    let (s3, c3) = needs_rebase_step(remote, branch, os, c1 + c2);
                    match s3 {
                        GitStep::Ask(a) => GitStep::Ask(a),
                        GitStep::Finish(Err(f)) => GitStep::Finish(Err(f)),
                        GitStep::Finish(Ok(false)) => push_then(remote, branch, committed, os, c1 + c2 + c3, SyncResult::Pushed),
                        GitStep::Finish(Ok(true)) => {
                            let (s4, c4) = rebase_step(remote, branch, os, c1 + c2 + c3);
                            match s4 {
                                GitStep::Ask(a) => GitStep::Ask(a),
                                GitStep::Finish(Err(f)) => GitStep::Finish(Err(f)),
                                GitStep::Finish(Ok(false)) => GitStep::Finish(Ok(SyncResult::ConflictDetected)),
                                GitStep::Finish(Ok(true)) => match single_step(
                                    seq!["push"@, "--force-with-lease"@, remote, branch],
                                    os,
                                    c1 + c2 + c3 + c4,
                                ).0 {
                                    GitStep::Ask(a) => GitStep::Ask(a),
                                    GitStep::Finish(Err(f)) => GitStep::Finish(Err(f)),
                                    GitStep::Finish(Ok(_)) => GitStep::Finish(Ok(SyncResult::RebasedAndPushed)),
                                },
                            }
                        },
                    }
                },
            }
        },
    }
}

impl GitSync {
    /// The git settings of a vault repository.
    pub fn new(
        repo_path: String,
        remote_name: String,
        branch: String,
        ssh_key_path: Option<String>,
    ) -> (r: Self)
        ensures
            r.repo_path == repo_path,
            r.remote_name == remote_name,
            r.branch == branch,
            r.ssh_key_path == ssh_key_path,
    {
        GitSync { repo_path, remote_name, branch, ssh_key_path }
    }

    /// The `GIT_SSH_COMMAND` used when an SSH key is configured.
    pub fn ssh_command(&self) -> (r: Option<String>)
        ensures
            crate::text::opt_string_view(r) == match self.ssh_key_path {
                Some(k) => Some("ssh -i \""@ + k@ + "\" -o StrictHostKeyChecking=accept-new"@),
                None => None,
            },
    {
        match &self.ssh_key_path {
            Some(k) => {
                let mut out = chars_of("ssh -i \"");
                push_str(&mut out, k.as_str());
                push_str(&mut out, "\" -o StrictHostKeyChecking=accept-new");
                Some(string_of(&out))
            },
            None => None,
        }
    }

    /// Fetch from remote
    pub fn fetch(&self, outputs: &Vec<GitOutput>) -> (r: GitProgress<()>)
        ensures
            outputs.len() == 0 ==> asks(r, seq!["fetch"@, self.remote_name@, self.branch@]),
            outputs.len() > 0 ==> match git_outcome(seq!["fetch"@, self.remote_name@, self.branch@], outputs@[0]) {
                Ok(_) => done_as(r, Ok(())),
                Err(f) => done_as(r, Err::<(), _>(f)),
            },
    {
        let args = words3("fetch", self.remote_name.as_str(), self.branch.as_str());
        if outputs.len() == 0 {
            return ask(&args);
        }
        match self.run_git(&args, &outputs[0]) {
            Ok(_) => GitProgress::Done(Ok(())),
            Err(e) => GitProgress::Done(Err(e)),
        }
    }

    /// Push to remote
    pub fn push(&self, outputs: &Vec<GitOutput>) -> (r: GitProgress<()>)
        ensures
            outputs.len() == 0 ==> asks(r, seq!["push"@, self.remote_name@, self.branch@]),
            outputs.len() > 0 ==> match git_outcome(seq!["push"@, self.remote_name@, self.branch@], outputs@[0]) {
                Ok(_) => done_as(r, Ok(())),
                Err(f) => done_as(r, Err::<(), _>(f)),
            },
    {
        let args = words3("push", self.remote_name.as_str(), self.branch.as_str());
        if outputs.len() == 0 {
            return ask(&args);
        }
        match self.run_git(&args, &outputs[0]) {
            Ok(_) => GitProgress::Done(Ok(())),
            Err(e) => GitProgress::Done(Err(e)),
        }
    }

    /// Force push (after rebase)
    pub fn force_push(&self, outputs: &Vec<GitOutput>) -> (r: GitProgress<()>)
        ensures
            outputs.len() == 0 ==> asks(
                r,
                seq!["push"@, "--force-with-lease"@, self.remote_name@, self.branch@],
            ),
            outputs.len() > 0 ==> match git_outcome(
                seq!["push"@, "--force-with-lease"@, self.remote_name@, self.branch@],
                outputs@[0],
            ) {
                Ok(_) => done_as(r, Ok(())),
                Err(f) => done_as(r, Err::<(), _>(f)),
            },
    {
        let args = words4("push", "--force-with-lease", self.remote_name.as_str(), self.branch.as_str());
        if outputs.len() == 0 {
            return ask(&args);
        }
        match self.run_git(&args, &outputs[0]) {
            Ok(_) => GitProgress::Done(Ok(())),
            Err(e) => GitProgress::Done(Err(e)),
        }
    }

    /// Get list of conflicted files (for conflict resolution UI)
    pub fn get_conflicted_files(&self, outputs: &Vec<GitOutput>) -> (r: GitProgress<Vec<String>>)
        ensures
            outputs.len() == 0 ==> asks(r, seq!["diff"@, "--name-only"@, "--diff-filter=U"@]),
            outputs.len() > 0 ==> match git_outcome(
                seq!["diff"@, "--name-only"@, "--diff-filter=U"@],
                outputs@[0],
            ) {
                Ok(s) => r matches GitProgress::Done(Ok(v)) && crate::text::string_views(v@) == listed_names(lines(s)),
                Err(f) => r matches GitProgress::Done(Err(e)) && is_failure(e, f),
            },
    {
        let args = words3("diff", "--name-only", "--diff-filter=U");
        if outputs.len() == 0 {
            return ask(&args);
        }
        match self.run_git(&args, &outputs[0]) {
            Ok(s) => GitProgress::Done(Ok(listed_lines(&s))),
            Err(e) => GitProgress::Done(Err(e)),
        }
    }
}

/// The names a git listing gives, one per line: each line trimmed, empty
/// lines left out.
pub fn listed_lines(text: &String) -> (r: Vec<String>)
    ensures
        crate::text::string_views(r@) == listed_names(lines(text@)),
{
    let ls = split_lines(&chars_of_string(text));
    let ghost lsv = views(ls@);
    let mut names: Vec<String> = Vec::new();
    let mut i: usize = 0;
    while i < ls.len()
        invariant
            i <= ls.len(),
            lsv == views(ls@),
            crate::text::string_views(names@) == listed_names(lsv.take(i as int)),
        decreases ls.len() - i,
    {
        let t = trimmed(&ls[i]);
        assert(lsv.take(i + 1).drop_last() =~= lsv.take(i as int));
        assert(lsv.take(i + 1).last() == ls@[i as int]@);
        if t.len() > 0 {
            let ghost before = crate::text::string_views(names@);
            names.push(string_of(&t));
            assert(crate::text::string_views(names@) =~= before.push(t@));
        }
        i = i + 1;
    }
    assert(lsv.take(ls.len() as int) =~= lsv);
    names
}

fn concat_ref(a: &str, sep: &str, b: &str) -> (r: String)
    ensures
        r@ == a@ + sep@ + b@,
{
    let mut out = chars_of(a);
    push_str(&mut out, sep);
    push_str(&mut out, b);
    string_of(&out)
}

impl GitSync {
    /// The result of the git command `args`, read from how it ended: its
    /// standard output, or the failure.
    pub fn run_git(&self, args: &Vec<Vec<char>>, o: &GitOutput) -> (r: Result<String, GitError>)
        ensures
            match git_outcome(views(args@), *o) {
                Ok(s) => r matches Ok(x) && x@ == s,
                Err(f) => r matches Err(e) && is_failure(e, f),
            },
    {
        match &o.spawn_error {
            Some(e) => {
                let mut m = chars_of("Failed to execute: ");
                push_str(&mut m, e.as_str());
                Err(GitError::CommandFailed { command: command_text(args), message: string_of(&m) })
            },
            None => {
                if !o.success {
                    let msg = trimmed(&chars_of_string(&o.stderr));
                    Err(GitError::CommandFailed { command: command_text(args), message: string_of(&msg) })
                } else {
                    Ok(o.stdout.clone())
                }
            },
        }
    }

    fn single_exec(&self, args: &Vec<Vec<char>>, outputs: &Vec<GitOutput>, from: usize) -> (r: (GitProgress<()>, usize))
        requires
            from <= outputs.len(),
        ensures
            step_is(r.0, single_step(views(args@), outputs@, from as int).0),
            r.1 == single_step(views(args@), outputs@, from as int).1,
            from + r.1 <= outputs.len(),
    {
        if outputs.len() <= from {
            return (ask(args), 0);
        }
        match self.run_git(args, &outputs[from]) {
            Ok(_) => (GitProgress::Done(Ok(())), 1),
            Err(e) => (GitProgress::Done(Err(e)), 1),
        }
    }


    /// Check if there are any uncommitted changes in the repo
    pub fn has_changes(&self, outputs: &Vec<GitOutput>) -> (r: GitProgress<bool>)
        ensures
            outputs.len() == 0 ==> asks(r, seq!["status"@, "--porcelain"@]),
            outputs.len() > 0 ==> match git_outcome(seq!["status"@, "--porcelain"@], outputs@[0]) {
                Ok(st) => done_as(r, Ok(trim(st).len() > 0)),
                Err(f) => done_as(r, Err::<bool, _>(f)),
            },
    {
        let args = words("status", "--porcelain");
        if outputs.len() == 0 {
            return ask(&args);
        }
        match self.run_git(&args, &outputs[0]) {
            Ok(st) => GitProgress::Done(Ok(trimmed(&chars_of_string(&st)).len() > 0)),
            Err(e) => GitProgress::Done(Err(e)),
        }
    }

    fn needs_rebase_exec(&self, outputs: &Vec<GitOutput>, from: usize) -> (r: (GitProgress<bool>, usize))
        requires
            from <= outputs.len(),
        ensures
            step_is(r.0, needs_rebase_step(self.remote_name@, self.branch@, outputs@, from as int).0),
            r.1 == needs_rebase_step(self.remote_name@, self.branch@, outputs@, from as int).1,
            from + r.1 <= outputs.len(),
    {
        let lr = concat_ref("refs/heads/", "", self.branch.as_str());
        let rr0 = concat_ref("refs/remotes/", self.remote_name.as_str(), "/");
        let rr = concat_ref(rr0.as_str(), "", self.branch.as_str());
        proof {
            reveal_strlit("");
            assert(lr@ =~= local_ref(self.branch@));
            assert(rr@ =~= remote_ref(self.remote_name@, self.branch@));
        }
        let a0 = words("rev-parse", lr.as_str());
        if outputs.len() <= from {
            return (ask(&a0), 0);
        }
        let l = match self.run_git(&a0, &outputs[from]) {
            Ok(l) => l,
            Err(_) => return (GitProgress::Done(Ok(false)), 1),
        };
        let a1 = words("rev-parse", rr.as_str());
        if outputs.len() <= from + 1 {
            return (ask(&a1), 0);
        }
        let rm = match self.run_git(&a1, &outputs[from + 1]) {
            Ok(x) => x,
            Err(_) => return (GitProgress::Done(Ok(false)), 2),
        };
        let lt = trimmed(&chars_of_string(&l));
        let rt = trimmed(&chars_of_string(&rm));
        if crate::url::detect::same_chars(&lt, &rt) {
            return (GitProgress::Done(Ok(false)), 2);
        }
        let range_behind = concat_ref(lr.as_str(), "..", rr.as_str());
        let a2 = words3("rev-list", "--count", range_behind.as_str());
        if outputs.len() <= from + 2 {
            return (ask(&a2), 0);
        }
        let b = match self.run_git(&a2, &outputs[from + 2]) {
            Ok(x) => x,
            Err(e) => return (GitProgress::Done(Err(e)), 3),
        };
        let range_ahead = concat_ref(rr.as_str(), "..", lr.as_str());
        let a3 = words3("rev-list", "--count", range_ahead.as_str());
        if outputs.len() <= from + 3 {
            return (ask(&a3), 0);
        }
        match self.run_git(&a3, &outputs[from + 3]) {
            Ok(_) => {},
            Err(e) => return (GitProgress::Done(Err(e)), 4),
        }
        let bt = string_of(&trimmed(&chars_of_string(&b)));
        let behind: u64 = match parse_unsigned(bt.as_str(), usize::MAX as u64) {
            Some(n) => n,
            None => 0,
        };
        (GitProgress::Done(Ok(behind > 0)), 4)
    }

    /// Check if local is behind remote and needs rebase
    pub fn needs_rebase(&self, outputs: &Vec<GitOutput>) -> (r: GitProgress<bool>)
        ensures
            step_is(r, needs_rebase_step(self.remote_name@, self.branch@, outputs@, 0).0),
    {
        self.needs_rebase_exec(outputs, 0).0
    }

    fn rebase_exec(&self, outputs: &Vec<GitOutput>, from: usize) -> (r: (GitProgress<bool>, usize))
        requires
            from <= outputs.len(),
        ensures
            step_is(r.0, rebase_step(self.remote_name@, self.branch@, outputs@, from as int).0),
            r.1 == rebase_step(self.remote_name@, self.branch@, outputs@, from as int).1,
            from + r.1 <= outputs.len(),
    {
        let upstream = concat_ref(self.remote_name.as_str(), "/", self.branch.as_str());
        let a0 = words("rebase", upstream.as_str());
        if outputs.len() <= from {
            return (ask(&a0), 0);
        }
        let e0 = match self.run_git(&a0, &outputs[from]) {
            Ok(_) => return (GitProgress::Done(Ok(true)), 1),
            Err(e) => e,
        };
        let a1 = words("status", "--porcelain");
        if outputs.len() <= from + 1 {
            return (ask(&a1), 0);
        }
        let a2 = words("rebase", "--abort");
        if outputs.len() <= from + 2 {
            return (ask(&a2), 0);
        }
        let status = match self.run_git(&a1, &outputs[from + 1]) {
            Ok(st) => chars_of_string(&st),
            Err(_) => Vec::new(),
        };
        let conflict = has_substring(&status, &chars_of("UU ")) || has_substring(
            &status,
            &chars_of("AA "),
        ) || has_substring(&status, &chars_of("DD "));
        if conflict {
            (GitProgress::Done(Ok(false)), 3)
        } else {
            (GitProgress::Done(Err(e0)), 3)
        }
    }

    /// Perform rebase of local commits on top of remote.
    /// Finishes with `true` if the rebase succeeded, `false` if conflicts were detected.
    pub fn rebase(&self, outputs: &Vec<GitOutput>) -> (r: GitProgress<bool>)
        ensures
            step_is(r, rebase_step(self.remote_name@, self.branch@, outputs@, 0).0),
    {
        self.rebase_exec(outputs, 0).0
    }

    fn stage_exec(&self, timestamp: &str, outputs: &Vec<GitOutput>, from: usize) -> (r: (GitProgress<bool>, usize))
        requires
            from <= outputs.len(),
        ensures
            step_is(r.0, stage_step(timestamp@, outputs@, from as int).0),
            r.1 == stage_step(timestamp@, outputs@, from as int).1,
            from + r.1 <= outputs.len(),
    {
        let a0 = words("status", "--porcelain");
        if outputs.len() <= from {
            return (ask(&a0), 0);
        }
        let st = match self.run_git(&a0, &outputs[from]) {
            Ok(x) => x,
            Err(e) => return (GitProgress::Done(Err(e)), 1),
        };
        if trimmed(&chars_of_string(&st)).len() == 0 {
            return (GitProgress::Done(Ok(false)), 1);
        }
        let a1 = words("add", "--all");
        if outputs.len() <= from + 1 {
            return (ask(&a1), 0);
        }
        match self.run_git(&a1, &outputs[from + 1]) {
            Ok(_) => {},
            Err(e) => return (GitProgress::Done(Err(e)), 2),
        }
        let message = concat_ref("Telegram sync: ", "", timestamp);
        proof {
            reveal_strlit("");
            assert(message@ =~= commit_message(timestamp@));
        }
        let mut a2 = words3("commit", "-m", message.as_str());
        let ghost b2 = views(a2@);
        let author = chars_of("--author");
        a2.push(author);
        assert(views(a2@) =~= b2.push(author@));
        let ghost b3 = views(a2@);
        let who = chars_of("Obsidian AI Agent <bot@obsidian-ai-agent>");
        a2.push(who);
        assert(views(a2@) =~= b3.push(who@));
        assert(views(a2@) =~= seq!["commit"@, "-m"@, commit_message(timestamp@), "--author"@, commit_author()]);
        if outputs.len() <= from + 2 {
            return (ask(&a2), 0);
        }
        match self.run_git(&a2, &outputs[from + 2]) {
            Ok(_) => (GitProgress::Done(Ok(true)), 3),
            Err(e) => (GitProgress::Done(Err(e)), 3),
        }
    }

    /// Stage all changed files and commit them with a message stamped
    /// `timestamp`; finishes with whether anything was committed.
    pub fn stage_and_commit(&self, timestamp: &str, outputs: &Vec<GitOutput>) -> (r: GitProgress<bool>)
        ensures
            step_is(r, stage_step(timestamp@, outputs@, 0).0),
    {
        self.stage_exec(timestamp, outputs, 0).0
    }

    fn push_then_exec(&self, committed: bool, outputs: &Vec<GitOutput>, from: usize, result: SyncResult) -> (r: GitProgress<SyncResult>)
        requires
            from <= outputs.len(),
        ensures
            step_is(r, push_then(self.remote_name@, self.branch@, committed, outputs@, from as int, result)),
    {
        if committed {
            let args = words3("push", self.remote_name.as_str(), self.branch.as_str());
            let (p, _) = self.single_exec(&args, outputs, from);
            match p {
                GitProgress::Run(a) => GitProgress::Run(a),
                GitProgress::Done(Err(e)) => GitProgress::Done(Err(e)),
                GitProgress::Done(Ok(_)) => GitProgress::Done(Ok(result)),
            }
        } else {
            GitProgress::Done(Ok(if result == SyncResult::Pushed { SyncResult::NothingToSync } else { result }))
        }
    }

    /// Full sync cycle: stage → commit → fetch → rebase → push, with the
    /// commit stamped `timestamp`.
    pub fn full_sync(&self, timestamp: &str, outputs: &Vec<GitOutput>) -> (r: GitProgress<SyncResult>)
        ensures
            step_is(r, full_sync_step(self.remote_name@, self.branch@, timestamp@, outputs@)),
    {
        let (p1, c1) = self.stage_exec(timestamp, outputs, 0);
        let committed = match p1 {
            GitProgress::Run(a) => return GitProgress::Run(a),
            GitProgress::Done(Err(e)) => return GitProgress::Done(Err(e)),
            GitProgress::Done(Ok(c)) => c,
        };
        let fetch_args = words3("fetch", self.remote_name.as_str(), self.branch.as_str());
        let (p2, c2) = self.single_exec(&fetch_args, outputs, c1);
        match p2 {
            GitProgress::Run(a) => return GitProgress::Run(a),
            GitProgress::Done(Err(_)) => {
                return self.push_then_exec(committed, outputs, c1 + c2, SyncResult::PushedWithoutFetch);
            },
            GitProgress::Done(Ok(_)) => {},
        }
        let (p3, c3) = self.needs_rebase_exec(outputs, c1 + c2);
        let behind = match p3 {
            GitProgress::Run(a) => return GitProgress::Run(a),
            GitProgress::Done(Err(e)) => return GitProgress::Done(Err(e)),
            GitProgress::Done(Ok(b)) => b,
        };
        if !behind {
            return self.push_then_exec(committed, outputs, c1 + c2 + c3, SyncResult::Pushed);
        }
        let (p4, c4) = self.rebase_exec(outputs, c1 + c2 + c3);
        let rebased = match p4 {
            GitProgress::Run(a) => return GitProgress::Run(a),
            GitProgress::Done(Err(e)) => return GitProgress::Done(Err(e)),
            GitProgress::Done(Ok(b)) => b,
        };
        if !rebased {
            return GitProgress::Done(Ok(SyncResult::ConflictDetected));
        }
        let fp_args = words4("push", "--force-with-lease", self.remote_name.as_str(), self.branch.as_str());
        let (p5, _) = self.single_exec(&fp_args, outputs, c1 + c2 + c3 + c4);
        match p5 {
            GitProgress::Run(a) => GitProgress::Run(a),
            GitProgress::Done(Err(e)) => GitProgress::Done(Err(e)),
            GitProgress::Done(Ok(_)) => GitProgress::Done(Ok(SyncResult::RebasedAndPushed)),
        }
    }
}

/// The divergence check decides from the commits the local branch lacks:
/// once both heads are read and differ, its third command is
/// `rev-list --count refs/heads/<branch>..refs/remotes/<remote>/<branch>`,
/// and it answers that a rebase is needed exactly when the count that
/// command printed is positive; what the fourth command (the count in the
/// other direction) printed never changes the answer.
pub proof fn lemma_rebase_needed_iff_behind(
    remote: Seq<char>,
    branch: Seq<char>,
    os: Seq<GitOutput>,
    other: GitOutput,
)
    requires
        os.len() >= 4,
        ran_ok(os[0]),
        ran_ok(os[1]),
        ran_ok(os[2]),
        ran_ok(os[3]),
        ran_ok(other),
        trim(os[0].stdout@) != trim(os[1].stdout@),
    ensures
        needs_rebase_step(remote, branch, os.take(2), 0).0 == GitStep::<bool>::Ask(
            seq![
                "rev-list"@,
                "--count"@,
                "refs/heads/"@ + branch + ".."@ + "refs/remotes/"@ + remote + "/"@ + branch,
            ],
        ),
        needs_rebase_step(remote, branch, os, 0).0 == GitStep::<bool>::Finish(Ok(count_of(os[2].stdout@) > 0)),
        needs_rebase_step(remote, branch, os.update(3, other), 0).0 == needs_rebase_step(remote, branch, os, 0).0,
{
    let t = os.take(2);
    assert(t[0] == os[0] && t[1] == os[1]);
    let u = os.update(3, other);
    assert(u[0] == os[0] && u[1] == os[1] && u[2] == os[2]);
    assert(local_ref(branch) + ".."@ + remote_ref(remote, branch) =~= "refs/heads/"@ + branch + ".."@
        + "refs/remotes/"@ + remote + "/"@ + branch);
}

} // verus!
