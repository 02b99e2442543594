use vstd::prelude::*;

verus! {

/// What one `waitpid` on any child reported.
#[derive(Clone, Copy, PartialEq, Eq, Structural, Debug)]
pub enum WaitEvent {
    /// The process `pid` exited with `code`.
    Exited { pid: i32, code: i32 },
    /// The process `pid` was killed by the signal `signal`.
    Signaled { pid: i32, signal: i32 },
    /// A child stopped, continued or otherwise changed without being reaped.
    Other,
    /// There is no child left to wait for (`ECHILD`).
    NoChildren,
    /// The wait was interrupted by a signal (`EINTR`).
    Interrupted,
    /// The wait failed in any other way.
    Failed,
}

/// What the reaping process does after one wait.
#[derive(Clone, Copy, PartialEq, Eq, Structural, Debug)]
pub enum ReapAction {
    WaitAgain,
    Exit(i32),
}

/// A process that reaps every child it has, and exits, once none is left,
/// with the status of the one child it tracks.
#[derive(Clone, Copy, PartialEq, Eq, Structural, Debug)]
pub struct Reaper {
    pub child: i32,
    pub exit_code: i32,
}

/// The status that an event reports of the tracked `child`: its exit code,
/// or 128 plus the signal that killed it.
pub open spec fn child_status(child: i32, e: WaitEvent) -> Option<int> {
    match e {
        WaitEvent::Exited { pid, code } => if pid == child {
            Some(code as int)
        } else {
            None
        },
        WaitEvent::Signaled { pid, signal } => if pid == child {
            Some(128 + signal)
        } else {
            None
        },
        _ => None,
    }
}

/// Whether the status that `e` reports of `child` fits an exit code.
pub open spec fn status_fits(child: i32, e: WaitEvent) -> bool {
    match child_status(child, e) {
        Some(c) => i32::MIN <= c <= i32::MAX,
        None => true,
    }
}

/// Whether waiting ends at `e`: no child is left, or waiting failed.
pub open spec fn ends_waiting(e: WaitEvent) -> bool {
    e is NoChildren || e is Failed
}

/// One step of reaping.
pub open spec fn reap_transition(r: Reaper, e: WaitEvent) -> (Reaper, ReapAction) {
    let next = match child_status(r.child, e) {
        Some(c) => Reaper { child: r.child, exit_code: c as i32 },
        None => r,
    };
    if ends_waiting(e) {
        (next, ReapAction::Exit(r.exit_code))
    } else {
        (next, ReapAction::WaitAgain)
    }
}

/// The reaper after it has seen `events`, one after the other.
pub open spec fn reap_run(r: Reaper, events: Seq<WaitEvent>) -> Reaper
    decreases events.len(),
{
    if events.len() == 0 {
        r
    } else {
        reap_transition(reap_run(r, events.drop_last()), events.last()).0
    }
}

/// The code that the reaper exits with when it is shown `events`, if it
/// exits while they last.
pub open spec fn reap_exit(r: Reaper, events: Seq<WaitEvent>) -> Option<i32>
    decreases events.len(),
{
    if events.len() == 0 {
        None
    } else {
        match reap_transition(r, events[0]).1 {
            ReapAction::Exit(c) => Some(c),
            ReapAction::WaitAgain => reap_exit(reap_transition(r, events[0]).0, events.drop_first()),
        }
    }
}

/// The status of the last exit or death of `child` that `events` report, and
/// 0 where they report none.
pub open spec fn last_child_status(child: i32, events: Seq<WaitEvent>) -> int
    decreases events.len(),
{
    if events.len() == 0 {
        0
    } else {
        match child_status(child, events.last()) {
            Some(c) => c,
            None => last_child_status(child, events.drop_last()),
        }
    }
}

impl Reaper {
    /// A reaper that tracks `child` and has seen nothing yet.
    pub fn new(child: i32) -> (r: Reaper)
        ensures
            r == (Reaper { child: child, exit_code: 0 }),
    {
        Reaper { child, exit_code: 0 }
    }

    /// Takes in what one wait reported: keeps the status of the tracked
    /// child, and ends once no child is left or waiting fails.
    pub fn step(&mut self, event: WaitEvent) -> (action: ReapAction)
        requires
            status_fits(old(self).child, event),
        ensures
            (*final(self), action) == reap_transition(*old(self), event),
    {
        let current = self.exit_code;
        match event {
            WaitEvent::Exited { pid, code } => {
                if pid == self.child {
                    self.exit_code = code;
                }
            },
            WaitEvent::Signaled { pid, signal } => {
                if pid == self.child {
                    self.exit_code = 128 + signal;
                }
            },
            _ => {},
        }
        match event {
            WaitEvent::NoChildren => ReapAction::Exit(current),
            WaitEvent::Failed => ReapAction::Exit(current),
            _ => ReapAction::WaitAgain,
        }
    }
}

/// The exit code that a parent passes on from the one wait for its child:
/// the child's own exit code, and 0 for anything else.
pub fn forwarded_exit_code(event: WaitEvent) -> (code: i32)
    ensures
        code == (match event {
            WaitEvent::Exited { code, .. } => code,
            _ => 0i32,
        }),
{
    match event {
        WaitEvent::Exited { code, .. } => code,
        _ => 0,
    }
}

proof fn lemma_run_front(r: Reaper, e: WaitEvent, s: Seq<WaitEvent>)
    ensures
        reap_run(r, seq![e] + s) == reap_run(reap_transition(r, e).0, s),
    decreases s.len(),
{
    if s.len() == 0 {
        assert((seq![e] + s).drop_last() =~= Seq::<WaitEvent>::empty());
        assert(reap_run(r, Seq::<WaitEvent>::empty()) == r);
    } else {
        lemma_run_front(r, e, s.drop_last());
        assert((seq![e] + s).drop_last() =~= seq![e] + s.drop_last());
    }
}

/// The reaper keeps the status of the last exit or death of its child: after
/// any sequence of waits whose statuses fit an exit code, its code is that of
/// the child's last exit (or 128 plus the killing signal), and 0 if the child
/// has not ended.
pub proof fn lemma_reaper_keeps_last_status(child: i32, events: Seq<WaitEvent>)
    requires
        forall|i: int| 0 <= i < events.len() ==> status_fits(child, #[trigger] events[i]),
    ensures
        reap_run(Reaper { child: child, exit_code: 0 }, events).exit_code == last_child_status(
            child,
            events,
        ),
        reap_run(Reaper { child: child, exit_code: 0 }, events).child == child,
    decreases events.len(),
{
    if events.len() > 0 {
        let prefix = events.drop_last();
        assert forall|i: int| 0 <= i < prefix.len() implies status_fits(
            child,
            #[trigger] prefix[i],
        ) by {
            assert(prefix[i] == events[i]);
        }
        lemma_reaper_keeps_last_status(child, prefix);
        assert(status_fits(child, events[events.len() - 1]));
    }
}

/// The reaper exits at the first wait that finds no child left or fails,
/// and not before, with the status of the last exit or death of its child
/// among the waits before that one (0 if there was none).
pub proof fn lemma_reaper_exits_at_end_of_waiting(
    child: i32,
    events: Seq<WaitEvent>,
    k: int,
)
    requires
        0 <= k < events.len(),
        ends_waiting(events[k]),
        forall|j: int| 0 <= j < k ==> !ends_waiting(#[trigger] events[j]),
        forall|i: int| 0 <= i < events.len() ==> status_fits(child, #[trigger] events[i]),
    ensures
        reap_exit(Reaper { child: child, exit_code: 0 }, events) == Some(
            last_child_status(child, events.take(k)) as i32,
        ),
{
    let start = Reaper { child: child, exit_code: 0 };
    lemma_exit_matches_run(start, events, k);
    assert forall|i: int| 0 <= i < events.take(k).len() implies status_fits(
        child,
        #[trigger] events.take(k)[i],
    ) by {
        assert(events.take(k)[i] == events[i]);
    }
    lemma_reaper_keeps_last_status(child, events.take(k));
}

proof fn lemma_exit_matches_run(r: Reaper, events: Seq<WaitEvent>, k: int)
    requires
        0 <= k < events.len(),
        ends_waiting(events[k]),
        forall|j: int| 0 <= j < k ==> !ends_waiting(#[trigger] events[j]),
    ensures
        reap_exit(r, events) == Some(reap_run(r, events.take(k)).exit_code),
    decreases k,
{
    if k == 0 {
        assert(events.take(0) =~= Seq::<WaitEvent>::empty());
    } else {
        let e = events[0];
        let rest = events.drop_first();
        assert(!ends_waiting(events[0]));
        assert forall|j: int| 0 <= j < k - 1 implies !ends_waiting(#[trigger] rest[j]) by {
            assert(rest[j] == events[j + 1]);
        }
        assert(rest[k - 1] == events[k]);
        lemma_exit_matches_run(reap_transition(r, e).0, rest, k - 1);
        lemma_run_front(r, e, rest.take(k - 1));
        assert(seq![e] + rest.take(k - 1) =~= events.take(k));
    }
}

proof fn lemma_no_exit_while_waiting(r: Reaper, events: Seq<WaitEvent>)
    requires
        forall|j: int| 0 <= j < events.len() ==> !ends_waiting(#[trigger] events[j]),
    ensures
        reap_exit(r, events) is None,
    decreases events.len(),
{
    if events.len() > 0 {
        let rest = events.drop_first();
        assert(!ends_waiting(events[0]));
        assert forall|j: int| 0 <= j < rest.len() implies !ends_waiting(#[trigger] rest[j]) by {
            assert(rest[j] == events[j + 1]);
        }
        lemma_no_exit_while_waiting(reap_transition(r, events[0]).0, rest);
    }
}

/// The reaper keeps waiting until a wait finds no child left or fails, and
/// then exits, whatever the waits before it reported (interrupted waits,
/// stopped or continued children, other children's deaths): it never exits
/// while no such wait has come, and it exits at the first one with the code
/// it holds at that point.
pub proof fn lemma_reaper_waits_until_no_child_is_left(r: Reaper, events: Seq<WaitEvent>)
    ensures
        (forall|j: int| 0 <= j < events.len() ==> !ends_waiting(#[trigger] events[j])) ==> reap_exit(
            r,
            events,
        ) is None,
        forall|k: int|
            0 <= k < events.len() && #[trigger] ends_waiting(events[k]) && (forall|j: int|
                0 <= j < k ==> !ends_waiting(#[trigger] events[j])) ==> reap_exit(r, events) == Some(
                reap_run(r, events.take(k)).exit_code,
            ),
{
    if forall|j: int| 0 <= j < events.len() ==> !ends_waiting(#[trigger] events[j]) {
        lemma_no_exit_while_waiting(r, events);
    }
    assert forall|k: int|
        0 <= k < events.len() && #[trigger] ends_waiting(events[k]) && (forall|j: int|
            0 <= j < k ==> !ends_waiting(#[trigger] events[j])) implies reap_exit(r, events) == Some(
        reap_run(r, events.take(k)).exit_code,
    ) by {
        lemma_exit_matches_run(r, events, k);
    }
}

} // verus!
