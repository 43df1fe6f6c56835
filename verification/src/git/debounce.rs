//! The debounce schedule of git syncs: a sync runs once the vault has been
//! quiet for the debounce period, never while a conflict is being resolved,
//! and a resolved conflict is followed by one more sync.
use vstd::prelude::*;
use crate::git::conflict::ConflictResolution;
use crate::git::sync::SyncResult;

verus! {

/// The state of the sync worker.
#[derive(Debug, Clone, Copy, PartialEq, Eq, Structural)]
pub struct DebounceState {
    /// A change is waiting for the quiet period to end.
    pub pending: bool,
    /// A conflict is being resolved.
    pub resolving: bool,
    /// The notification channel has closed.
    pub closed: bool,
}

/// What happened to the sync worker.
#[derive(Debug, Clone, Copy, PartialEq, Eq, Structural)]
pub enum DebounceEvent {
    /// The vault changed.
    Changed,
    /// The notification channel closed.
    ChannelClosed,
    /// The quiet period ended.
    QuietPeriodOver,
    /// A sync finished with this outcome (`None`: it failed).
    SyncFinished(Option<SyncResult>),
    /// The conflict dialogue could not be started: no chat is known.
    NoChat,
    /// The user chose a resolution, and whether carrying it out worked.
    Resolved(ConflictResolution, bool),
    /// The dialogue ended without a choice.
    ResolutionFailed,
}

/// What the sync worker does next.
#[derive(Debug, Clone, Copy, PartialEq, Eq, Structural)]
pub enum DebounceAction {
    /// Wait for the next change.
    WaitForChange,
    /// (Re)start the quiet-period timer and wait.
    StartTimer,
    /// Run a full sync.
    RunSync,
    /// Open the conflict dialogue in the last active chat.
    AskResolution,
    /// Stop the worker.
    Stop,
}

/// The worker before any change.
pub fn initial_state() -> (r: DebounceState)
    ensures
        !r.pending && !r.resolving && !r.closed,
{
    DebounceState { pending: false, resolving: false, closed: false }
}

/// The schedule: the next state and action for an event.
pub open spec fn debounce_next(s: DebounceState, e: DebounceEvent) -> (DebounceState, DebounceAction) {
    match e {
        DebounceEvent::Changed => (DebounceState { pending: true, ..s }, DebounceAction::StartTimer),
        DebounceEvent::ChannelClosed => if s.pending {
            if s.resolving {
                (DebounceState { pending: false, closed: true, ..s }, DebounceAction::Stop)
            } else {
                (DebounceState { pending: false, closed: true, ..s }, DebounceAction::RunSync)
            }
        } else {
            (DebounceState { closed: true, ..s }, DebounceAction::Stop)
        },
        DebounceEvent::QuietPeriodOver => if !s.pending {
            (s, DebounceAction::WaitForChange)
        } else if s.resolving {
            (DebounceState { pending: false, ..s }, DebounceAction::WaitForChange)
        } else {
            (DebounceState { pending: false, ..s }, DebounceAction::RunSync)
        },
        DebounceEvent::SyncFinished(r) => if r == Some(SyncResult::ConflictDetected) && !s.resolving {
            (DebounceState { resolving: true, ..s }, DebounceAction::AskResolution)
        } else {
            (DebounceState { resolving: false, ..s }, if s.closed {
                DebounceAction::Stop
            } else {
                DebounceAction::WaitForChange
            })
        },
        DebounceEvent::NoChat | DebounceEvent::ResolutionFailed => (
            DebounceState { resolving: false, ..s },
            if s.closed { DebounceAction::Stop } else { DebounceAction::WaitForChange },
        ),
        DebounceEvent::Resolved(res, ok) => if ok && res != ConflictResolution::Abort {
            (DebounceState { resolving: true, ..s }, DebounceAction::RunSync)
        } else {
            (DebounceState { resolving: false, ..s }, if s.closed {
                DebounceAction::Stop
            } else {
                DebounceAction::WaitForChange
            })
        },
    }
}

/// The next state and action of the sync worker.
pub fn debounce_step(s: DebounceState, e: DebounceEvent) -> (r: (DebounceState, DebounceAction))
    ensures
        r == debounce_next(s, e),
{
    match e {
        DebounceEvent::Changed => (DebounceState { pending: true, ..s }, DebounceAction::StartTimer),
        DebounceEvent::ChannelClosed => {
            if s.pending {
                if s.resolving {
                    (DebounceState { pending: false, closed: true, ..s }, DebounceAction::Stop)
                } else {
                    (DebounceState { pending: false, closed: true, ..s }, DebounceAction::RunSync)
                }
            } else {
                (DebounceState { closed: true, ..s }, DebounceAction::Stop)
            }
        },
        DebounceEvent::QuietPeriodOver => {
            if !s.pending {
                (s, DebounceAction::WaitForChange)
            } else if s.resolving {
                (DebounceState { pending: false, ..s }, DebounceAction::WaitForChange)
            } else {
                (DebounceState { pending: false, ..s }, DebounceAction::RunSync)
            }
        },
        DebounceEvent::SyncFinished(r) => {
            let conflict = match r {
                Some(SyncResult::ConflictDetected) => true,
                _ => false,
            };
            if conflict && !s.resolving {
                (DebounceState { resolving: true, ..s }, DebounceAction::AskResolution)
            } else {
                (
                    DebounceState { resolving: false, ..s },
                    if s.closed { DebounceAction::Stop } else { DebounceAction::WaitForChange },
                )
            }
        },
        DebounceEvent::NoChat | DebounceEvent::ResolutionFailed => (
            DebounceState { resolving: false, ..s },
            if s.closed { DebounceAction::Stop } else { DebounceAction::WaitForChange },
        ),
        DebounceEvent::Resolved(res, ok) => {
            let retry = ok && match res {
                ConflictResolution::Abort => false,
                _ => true,
            };
            if retry {
                (DebounceState { resolving: true, ..s }, DebounceAction::RunSync)
            } else {
                (
                    DebounceState { resolving: false, ..s },
                    if s.closed { DebounceAction::Stop } else { DebounceAction::WaitForChange },
                )
            }
        },
    }
}

/// No sync starts while a conflict is being resolved: from a resolving
/// state, only a resolution that worked (and is not an abort) leads to a sync.
pub proof fn lemma_no_sync_while_resolving(s: DebounceState, e: DebounceEvent)
    requires
        s.resolving,
        debounce_next(s, e).1 == DebounceAction::RunSync,
    ensures
        e matches DebounceEvent::Resolved(res, ok) && ok && res != ConflictResolution::Abort,
{
}

/// A change always (re)starts the quiet-period timer and leaves a change pending.
pub proof fn lemma_change_restarts_timer(s: DebounceState)
    ensures
        debounce_next(s, DebounceEvent::Changed).1 == DebounceAction::StartTimer,
        debounce_next(s, DebounceEvent::Changed).0.pending,
{
}

/// A sync starts only once the vault has been quiet for the debounce
/// period, when the channel closes with a change pending, or to retry
/// after a conflict was resolved.
pub proof fn lemma_sync_only_after_quiet(s: DebounceState, e: DebounceEvent)
    requires
        debounce_next(s, e).1 == DebounceAction::RunSync,
    ensures
        e == DebounceEvent::QuietPeriodOver || e == DebounceEvent::ChannelClosed || e matches DebounceEvent::Resolved(
            _,
            true,
        ),
{
}

/// A pending change is synced when the quiet period ends, unless a
/// conflict is being resolved.
pub proof fn lemma_quiet_period_syncs_pending(s: DebounceState)
    requires
        s.pending,
        !s.resolving,
    ensures
        debounce_next(s, DebounceEvent::QuietPeriodOver).1 == DebounceAction::RunSync,
        !debounce_next(s, DebounceEvent::QuietPeriodOver).0.pending,
{
}

/// A detected conflict opens the dialogue, and while it is open a second
/// conflict does not open another.
pub proof fn lemma_conflict_opens_one_dialogue(s: DebounceState)
    ensures
        !s.resolving ==> debounce_next(s, DebounceEvent::SyncFinished(Some(SyncResult::ConflictDetected))).1
            == DebounceAction::AskResolution,
        s.resolving ==> debounce_next(s, DebounceEvent::SyncFinished(Some(SyncResult::ConflictDetected))).1
            != DebounceAction::AskResolution,
{
}

/// The actions the worker takes for a sequence of events, from state `s`.
pub open spec fn run_actions(s: DebounceState, es: Seq<DebounceEvent>) -> Seq<DebounceAction>
    decreases es.len(),
{
    if es.len() == 0 {
        Seq::empty()
    } else {
        seq![debounce_next(s, es[0]).1] + run_actions(debounce_next(s, es[0]).0, es.drop_first())
    }
}

/// A burst of `n` changes, each within the quiet period of the one before,
/// followed by the end of the quiet period.
pub open spec fn burst(n: nat) -> Seq<DebounceEvent> {
    Seq::new(n, |i: int| DebounceEvent::Changed).push(DebounceEvent::QuietPeriodOver)
}

/// One sync per burst of changes: with no conflict being resolved, the
/// worker restarts the timer for each change and syncs exactly once, when
/// the quiet period after the last change is over.
pub proof fn lemma_one_sync_per_burst(s: DebounceState, n: nat)
    requires
        n >= 1 || s.pending,
        !s.resolving,
    ensures
        run_actions(s, burst(n)) == Seq::new(n, |i: int| DebounceAction::StartTimer).push(
            DebounceAction::RunSync,
        ),
    decreases n,
{
    let es = burst(n);
    let want = Seq::new(n, |i: int| DebounceAction::StartTimer).push(DebounceAction::RunSync);
    if n == 0 {
        assert(es.drop_first() =~= Seq::<DebounceEvent>::empty());
        assert(es[0] == DebounceEvent::QuietPeriodOver);
        assert(debounce_next(s, es[0]).1 == DebounceAction::RunSync);
        assert(run_actions(debounce_next(s, es[0]).0, es.drop_first()) == Seq::<DebounceAction>::empty());
        assert(run_actions(s, es) == seq![DebounceAction::RunSync] + Seq::<DebounceAction>::empty());
        assert(run_actions(s, es) =~= want);
    } else {
        let s2 = debounce_next(s, DebounceEvent::Changed).0;
        assert(es[0] == DebounceEvent::Changed);
        assert(es.drop_first() =~= burst((n - 1) as nat));
        lemma_one_sync_per_burst(s2, (n - 1) as nat);
        let tail = Seq::new((n - 1) as nat, |i: int| DebounceAction::StartTimer).push(DebounceAction::RunSync);
        assert(run_actions(s2, es.drop_first()) == tail);
        assert(run_actions(s, es) == seq![DebounceAction::StartTimer] + tail);
        assert(seq![DebounceAction::StartTimer] + tail =~= want);
    }
}

/// No sync without a change: from a worker with no change pending, quiet
/// periods ending and the channel closing start no sync as long as no
/// change comes.
pub proof fn lemma_no_sync_without_change(s: DebounceState, es: Seq<DebounceEvent>)
    requires
        !s.pending,
        forall|i: int|
            0 <= i < es.len() ==> #[trigger] es[i] == DebounceEvent::QuietPeriodOver || es[i]
                == DebounceEvent::ChannelClosed,
    ensures
        forall|i: int| 0 <= i < run_actions(s, es).len() ==> #[trigger] run_actions(s, es)[i] != DebounceAction::RunSync,
        run_actions(s, es).len() == es.len(),
    decreases es.len(),
{
    if es.len() > 0 {
        let s2 = debounce_next(s, es[0]).0;
        let rest = es.drop_first();
        assert forall|i: int| 0 <= i < rest.len() implies #[trigger] rest[i] == DebounceEvent::QuietPeriodOver
            || rest[i] == DebounceEvent::ChannelClosed by {
            assert(rest[i] == es[i + 1]);
        }
        lemma_no_sync_without_change(s2, rest);
        let r = run_actions(s, es);
        assert forall|i: int| 0 <= i < r.len() implies #[trigger] r[i] != DebounceAction::RunSync by {
            if i > 0 {
                assert(r[i] == run_actions(s2, rest)[i - 1]);
            }
        }
    }
}

} // verus!
