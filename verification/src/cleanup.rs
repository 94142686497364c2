//! Waiting for a recording to end after it was asked to, and killing it if it
//! does not.

use vstd::prelude::*;

verus! {

/// Milliseconds between two looks at the process.
pub const POLL_MILLIS: u64 = 250;

/// How many looks find the process alive before it is killed.
pub const PATIENCE: u32 = 12;

/// What became of the process.
#[derive(Clone, Copy, Debug, PartialEq, Eq, Structural)]
pub enum CleanupEvent {
    /// It is still running.
    Alive,
    /// It has ended.
    Exited,
    /// It was killed.
    Killed,
    /// It could not be killed.
    KillFailed,
}

/// What is to be done about the process.
#[derive(Clone, Copy, Debug, PartialEq, Eq, Structural)]
pub enum CleanupAction {
    /// Wait that many milliseconds, then see whether it still runs.
    WaitAndPoll(u64),
    /// Kill it.
    Kill,
    /// It has ended.
    Done,
    /// It can be stopped by no means.
    Failed,
}

/// What a cleanup is waiting for.
#[derive(Clone, Copy, Debug, PartialEq, Eq, Structural)]
pub enum CleanupPhase {
    /// That the process ends.
    Waiting,
    /// That the process is killed.
    Killing,
    /// Nothing any more.
    Ended,
}

/// The state of a cleanup: how many looks found the process alive, and what it
/// waits for.
#[derive(Clone, Copy, Debug, PartialEq, Eq, Structural)]
pub struct Cleanup {
    pub counter: u32,
    pub phase: CleanupPhase,
}

impl Cleanup {
    /// The state of a cleanup that begins.
    pub open spec fn initial() -> Cleanup {
        Cleanup { counter: 0, phase: CleanupPhase::Waiting }
    }

    /// The states that a cleanup can be in.
    pub open spec fn wf(self) -> bool {
        self.counter < PATIENCE && (self.phase is Killing ==> self.counter + 1 == PATIENCE)
    }

    /// Whether an event can follow.
    pub open spec fn accepts(self, event: CleanupEvent) -> bool {
        match self.phase {
            CleanupPhase::Waiting => event is Alive || event is Exited,
            CleanupPhase::Killing => event is Killed || event is KillFailed,
            CleanupPhase::Ended => false,
        }
    }

    /// The state after an event.
    pub open spec fn after(self, event: CleanupEvent) -> Cleanup {
        if event is Alive {
            if self.counter + 1 >= PATIENCE {
                Cleanup { phase: CleanupPhase::Killing, ..self }
            } else {
                Cleanup { counter: (self.counter + 1) as u32, ..self }
            }
        } else {
            Cleanup { phase: CleanupPhase::Ended, ..self }
        }
    }

    /// What is to be done after an event.
    pub open spec fn action(self, event: CleanupEvent) -> CleanupAction {
        match event {
            CleanupEvent::Alive => if self.counter + 1 >= PATIENCE {
                CleanupAction::Kill
            } else {
                CleanupAction::WaitAndPoll(POLL_MILLIS)
            },
            CleanupEvent::Exited => CleanupAction::Done,
            CleanupEvent::Killed => CleanupAction::Done,
            CleanupEvent::KillFailed => CleanupAction::Failed,
        }
    }

    /// Begins a cleanup: the process is given some time first.
    pub fn start() -> (r: (Cleanup, CleanupAction))
        ensures
            r.0 == Cleanup::initial(),
            r.1 == CleanupAction::WaitAndPoll(POLL_MILLIS),
    {
        (
            Cleanup { counter: 0, phase: CleanupPhase::Waiting },
            CleanupAction::WaitAndPoll(POLL_MILLIS),
        )
    }

    /// Whether an event can follow.
    pub fn can_accept(&self, event: CleanupEvent) -> (r: bool)
        ensures
            r == self.accepts(event),
    {
        match (self.phase, event) {
            (CleanupPhase::Waiting, CleanupEvent::Alive) => true,
            (CleanupPhase::Waiting, CleanupEvent::Exited) => true,
            (CleanupPhase::Killing, CleanupEvent::Killed) => true,
            (CleanupPhase::Killing, CleanupEvent::KillFailed) => true,
            _ => false,
        }
    }

    /// Acts upon an event.
    pub fn next(&mut self, event: CleanupEvent) -> (action: CleanupAction)
        requires
            old(self).wf(),
            old(self).accepts(event),
        ensures
            final(self).wf(),
            *final(self) == old(self).after(event),
            action == old(self).action(event),
    {
        match event {
            CleanupEvent::Alive => {
                if self.counter + 1 >= PATIENCE {
                    self.phase = CleanupPhase::Killing;
                    CleanupAction::Kill
                } else {
                    self.counter = self.counter + 1;
                    CleanupAction::WaitAndPoll(POLL_MILLIS)
                }
            },
            CleanupEvent::Exited | CleanupEvent::Killed => {
                self.phase = CleanupPhase::Ended;
                CleanupAction::Done
            },
            CleanupEvent::KillFailed => {
                self.phase = CleanupPhase::Ended;
                CleanupAction::Failed
            },
        }
    }
}

/// The state after that many looks that found the process alive.
pub open spec fn after_alive(n: nat) -> Cleanup
    decreases n,
{
    if n == 0 {
        Cleanup::initial()
    } else {
        after_alive((n - 1) as nat).after(CleanupEvent::Alive)
    }
}

/// A process that stays alive is looked at twelve times, every 250 milliseconds,
/// and killed after the last look, three seconds after it was interrupted.
pub proof fn law_kill_comes_after_three_seconds(n: nat)
    ensures
        n + 1 < PATIENCE ==> after_alive(n).action(CleanupEvent::Alive)
            == CleanupAction::WaitAndPoll(POLL_MILLIS),
        after_alive((PATIENCE - 1) as nat).action(CleanupEvent::Alive) == CleanupAction::Kill,
        n < PATIENCE ==> after_alive(n) == (Cleanup { counter: n as u32, phase: CleanupPhase::Waiting }),
        PATIENCE * POLL_MILLIS == 3000,
{
    lemma_after_alive((PATIENCE - 1) as nat);
    if n < PATIENCE {
        lemma_after_alive(n);
    }
}

/// How many looks the state has counted.
pub proof fn lemma_after_alive(n: nat)
    requires
        n < PATIENCE,
    ensures
        after_alive(n) == (Cleanup { counter: n as u32, phase: CleanupPhase::Waiting }),
    decreases n,
{
    if n > 0 {
        lemma_after_alive((n - 1) as nat);
    }
}

/// A process that has ended is never killed.
pub proof fn law_ended_process_is_left_alone(s: Cleanup)
    ensures
        s.action(CleanupEvent::Exited) == CleanupAction::Done,
        !s.after(CleanupEvent::Exited).accepts(CleanupEvent::Alive),
{
}

/// A cleanup has ended exactly when it says that it is done or failed, and then
/// accepts nothing any more. Before that, there is always something that can
/// follow.
pub proof fn law_ended_cleanup_accepts_nothing(s: Cleanup, event: CleanupEvent)
    requires
        s.wf(),
        s.accepts(event),
    ensures
        s.after(event).wf(),
        s.after(event).phase is Ended <==> s.action(event) is Done || s.action(event) is Failed,
        s.after(event).phase is Ended ==> forall|later: CleanupEvent| !s.after(event).accepts(
            later,
        ),
        !(s.after(event).phase is Ended) ==> exists|later: CleanupEvent| s.after(event).accepts(
            later,
        ),
{
    let t = s.after(event);
    assert(t.phase is Waiting ==> t.accepts(CleanupEvent::Alive));
    assert(t.phase is Killing ==> t.accepts(CleanupEvent::Killed));
}

/// A cleanup that waits for the process accepts that it lives and that it has
/// ended, one that kills it accepts how that went, and one that has ended accepts
/// nothing.
pub proof fn law_accepted_events(s: Cleanup, event: CleanupEvent)
    ensures
        s.accepts(event) <==> {
            ||| s.phase is Waiting && event is Alive
            ||| s.phase is Waiting && event is Exited
            ||| s.phase is Killing && event is Killed
            ||| s.phase is Killing && event is KillFailed
        },
{
}

/// Eleven looks may find the process alive, each of which is counted and followed
/// by a pause of 250 milliseconds. The twelfth leads to the kill.
pub proof fn law_twelfth_look_kills(s: Cleanup)
    requires
        s.phase is Waiting,
    ensures
        s.counter < 11 ==> s.action(CleanupEvent::Alive) == CleanupAction::WaitAndPoll(250)
            && s.after(CleanupEvent::Alive).counter == s.counter + 1 && s.after(
            CleanupEvent::Alive,
        ).phase is Waiting,
        s.counter == 11 ==> s.action(CleanupEvent::Alive) is Kill && s.after(
            CleanupEvent::Alive,
        ).phase is Killing,
        Cleanup::initial().counter == 0,
        Cleanup::initial().phase is Waiting,
        POLL_MILLIS == 250,
        PATIENCE == 12,
{
}

/// A process that has ended or was killed is done with, and one that could not be
/// killed is a failure, however many looks there were.
pub proof fn law_ends_of_a_process(s: Cleanup)
    ensures
        s.action(CleanupEvent::Exited) is Done && s.after(CleanupEvent::Exited).phase is Ended,
        s.action(CleanupEvent::Killed) is Done && s.after(CleanupEvent::Killed).phase is Ended,
        s.action(CleanupEvent::KillFailed) is Failed && s.after(CleanupEvent::KillFailed).phase
            is Ended,
{
}

} // verus!
