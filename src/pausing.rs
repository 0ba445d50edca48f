//! Pausing every other thread of a process around a critical section.
//!
//! [`PauseSession`] decides what to do next; the caller performs each
//! [`PauseAction`] on the operating system and reports back how it went.
use vstd::prelude::*;
use crate::process::ProcessErrorKind;

verus! {

/// One entry of a thread snapshot.
#[derive(Debug, Clone, Copy, PartialEq, Eq)]
pub struct ThreadEntry {
    pub thread_id: u32,
    pub owner_process_id: u32,
}

/// `e` belongs to the process and is not the calling thread.
pub open spec fn pausable(e: ThreadEntry, process_id: u32, current_thread_id: u32) -> bool {
    e.owner_process_id == process_id && e.thread_id != current_thread_id
}

/// Identifiers of the pausable threads of `entries`, in snapshot order.
pub open spec fn pause_targets(entries: Seq<ThreadEntry>, process_id: u32, current_thread_id: u32) -> Seq<u32>
    decreases entries.len(),
{
    if entries.len() == 0 {
        Seq::empty()
    } else {
        let rest = pause_targets(entries.drop_last(), process_id, current_thread_id);
        if pausable(entries.last(), process_id, current_thread_id) {
            rest.push(entries.last().thread_id)
        } else {
            rest
        }
    }
}

proof fn lemma_pause_targets_exclude(entries: Seq<ThreadEntry>, process_id: u32, current_thread_id: u32)
    ensures
        forall|i: int|
            0 <= i < pause_targets(entries, process_id, current_thread_id).len() ==> #[trigger] pause_targets(
                entries,
                process_id,
                current_thread_id,
            )[i] != current_thread_id,
    decreases entries.len(),
{
    if entries.len() > 0 {
        lemma_pause_targets_exclude(entries.drop_last(), process_id, current_thread_id);
        let rest = pause_targets(entries.drop_last(), process_id, current_thread_id);
        let all = pause_targets(entries, process_id, current_thread_id);
        assert forall|i: int| 0 <= i < all.len() implies #[trigger] all[i] != current_thread_id by {
            if i < rest.len() {
                assert(all[i] == rest[i]);
            }
        }
    }
}

/// The threads of a snapshot to pause or resume: those of the process, less
/// the calling thread.
pub fn pausable_threads(entries: &[ThreadEntry], process_id: u32, current_thread_id: u32) -> (r: Vec<u32>)
    ensures
        r@ == pause_targets(entries@, process_id, current_thread_id),
{
    let mut out: Vec<u32> = Vec::new();
    let mut i: usize = 0;
    while i < entries.len()
        invariant
            i <= entries@.len(),
            out@ == pause_targets(entries@.take(i as int), process_id, current_thread_id),
        decreases entries@.len() - i,
    {
        let e = entries[i];
        assert(entries@.take(i + 1).drop_last() =~= entries@.take(i as int));
        if e.owner_process_id == process_id && e.thread_id != current_thread_id {
            out.push(e.thread_id);
        }
        i = i + 1;
    }
    assert(entries@.take(i as int) =~= entries@);
    out
}

/// Where a pause session stands.
#[derive(Debug, Clone, Copy, PartialEq, Eq, Structural)]
pub enum PausePhase {
    /// Waiting for the thread snapshot.
    Enumerating,
    /// Suspending the threads of the snapshot one by one.
    Suspending,
    /// Waiting for the critical section to end.
    InCriticalSection,
    /// Resuming the suspended threads one by one.
    Resuming,
    /// Done.
    Finished,
}

/// What the caller must do next.
#[derive(Debug)]
pub enum PauseAction {
    /// Open and suspend this thread, then report whether it was suspended.
    Suspend(u32),
    /// Run the critical section once, then report that it has ended.
    RunCriticalSection,
    /// Open and resume this thread, then report back.
    Resume(u32),
    /// The session is over, with this outcome.
    Finish(Result<(), ProcessErrorKind>),
}

/// The decisions of one pause of a process's threads around a critical
/// section. Threads that cannot be suspended are skipped; every thread that
/// was suspended is resumed after the critical section.
pub struct PauseSession {
    process_id: u32,
    current_thread_id: u32,
    phase: PausePhase,
    targets: Vec<u32>,
    paused: Vec<u32>,
    cursor: usize,
}

impl PauseSession {
    pub closed spec fn process_id(&self) -> u32 {
        self.process_id
    }

    pub closed spec fn current_thread_id(&self) -> u32 {
        self.current_thread_id
    }

    pub closed spec fn phase(&self) -> PausePhase {
        self.phase
    }

    /// The threads chosen for suspension, in order.
    pub closed spec fn targets(&self) -> Seq<u32> {
        self.targets@
    }

    /// The threads suspended so far, in order.
    pub closed spec fn paused(&self) -> Seq<u32> {
        self.paused@
    }

    /// While suspending, the index of the target being suspended; while
    /// resuming, the index of the paused thread being resumed.
    pub closed spec fn cursor(&self) -> int {
        self.cursor as int
    }

    pub closed spec fn wf(&self) -> bool {
        &&& self.phase == PausePhase::Suspending ==> self.cursor < self.targets@.len()
        &&& self.phase == PausePhase::Resuming ==> self.cursor < self.paused@.len()
        &&& forall|i: int| 0 <= i < self.targets@.len() ==> #[trigger] self.targets@[i] != self.current_thread_id
        &&& forall|i: int| 0 <= i < self.paused@.len() ==> #[trigger] self.paused@[i] != self.current_thread_id
    }

    /// A session for `process_id`, called from thread `current_thread_id`;
    /// it waits for the thread snapshot.
    pub fn new(process_id: u32, current_thread_id: u32) -> (r: Self)
        ensures
            r.wf(),
            r.process_id() == process_id,
            r.current_thread_id() == current_thread_id,
            r.phase() == PausePhase::Enumerating,
            r.targets().len() == 0,
            r.paused().len() == 0,
    {
        PauseSession {
            process_id,
            current_thread_id,
            phase: PausePhase::Enumerating,
            targets: Vec::new(),
            paused: Vec::new(),
            cursor: 0,
        }
    }

    /// The thread snapshot could not be taken: the session ends with that
    /// error and the critical section never runs.
    pub fn on_enumeration_failed(&mut self) -> (r: PauseAction)
        requires
            old(self).wf(),
            old(self).phase() == PausePhase::Enumerating,
        ensures
            final(self).wf(),
            final(self).phase() == PausePhase::Finished,
            final(self).paused() == old(self).paused(),
            r == PauseAction::Finish(Err(ProcessErrorKind::ThreadEnumeration)),
    {
        self.phase = PausePhase::Finished;
        PauseAction::Finish(Err(ProcessErrorKind::ThreadEnumeration))
    }

    /// The thread snapshot was taken: suspend its pausable threads in order,
    /// or run the critical section at once when there are none.
    pub fn on_enumerated(&mut self, entries: &[ThreadEntry]) -> (r: PauseAction)
        requires
            old(self).wf(),
            old(self).phase() == PausePhase::Enumerating,
        ensures
            final(self).wf(),
            final(self).process_id() == old(self).process_id(),
            final(self).current_thread_id() == old(self).current_thread_id(),
            final(self).targets() == pause_targets(
                entries@,
                old(self).process_id(),
                old(self).current_thread_id(),
            ),
            final(self).paused().len() == 0,
            final(self).targets().len() == 0 ==> final(self).phase() == PausePhase::InCriticalSection
                && r == PauseAction::RunCriticalSection,
            final(self).targets().len() > 0 ==> final(self).phase() == PausePhase::Suspending
                && final(self).cursor() == 0 && r == PauseAction::Suspend(final(self).targets()[0]),
    {
        let targets = pausable_threads(entries, self.process_id, self.current_thread_id);
        proof {
            lemma_pause_targets_exclude(entries@, self.process_id, self.current_thread_id);
        }
        self.targets = targets;
        self.paused = Vec::new();
        self.cursor = 0;
        if self.targets.len() == 0 {
            self.phase = PausePhase::InCriticalSection;
            PauseAction::RunCriticalSection
        } else {
            self.phase = PausePhase::Suspending;
            PauseAction::Suspend(self.targets[0])
        }
    }

    /// The target at the cursor was suspended, or could not be (it is then
    /// skipped): go on with the next target, or run the critical section.
    pub fn on_suspended(&mut self, suspended: bool) -> (r: PauseAction)
        requires
            old(self).wf(),
            old(self).phase() == PausePhase::Suspending,
        ensures
            final(self).wf(),
            final(self).process_id() == old(self).process_id(),
            final(self).current_thread_id() == old(self).current_thread_id(),
            final(self).targets() == old(self).targets(),
            final(self).paused() == if suspended {
                old(self).paused().push(old(self).targets()[old(self).cursor()])
            } else {
                old(self).paused()
            },
            old(self).cursor() + 1 < old(self).targets().len() ==> final(self).phase()
                == PausePhase::Suspending && final(self).cursor() == old(self).cursor() + 1 && r
                == PauseAction::Suspend(old(self).targets()[old(self).cursor() + 1]),
            old(self).cursor() + 1 == old(self).targets().len() ==> final(self).phase()
                == PausePhase::InCriticalSection && r == PauseAction::RunCriticalSection,
    {
        if suspended {
            let t = self.targets[self.cursor];
            self.paused.push(t);
        }
        if self.cursor < self.targets.len() - 1 {
            self.cursor = self.cursor + 1;
            PauseAction::Suspend(self.targets[self.cursor])
        } else {
            self.phase = PausePhase::InCriticalSection;
            PauseAction::RunCriticalSection
        }
    }

    /// The critical section has ended: resume the suspended threads in
    /// order, or finish when there are none.
    pub fn on_critical_section_done(&mut self) -> (r: PauseAction)
        requires
            old(self).wf(),
            old(self).phase() == PausePhase::InCriticalSection,
        ensures
            final(self).wf(),
            final(self).paused() == old(self).paused(),
            old(self).paused().len() == 0 ==> final(self).phase() == PausePhase::Finished && r
                == PauseAction::Finish(Ok(())),
            old(self).paused().len() > 0 ==> final(self).phase() == PausePhase::Resuming
                && final(self).cursor() == 0 && r == PauseAction::Resume(old(self).paused()[0]),
    {
        if self.paused.len() == 0 {
            self.phase = PausePhase::Finished;
            PauseAction::Finish(Ok(()))
        } else {
            self.phase = PausePhase::Resuming;
            self.cursor = 0;
            PauseAction::Resume(self.paused[0])
        }
    }

    /// The paused thread at the cursor was resumed, or could not be (it is
    /// then skipped): go on with the next one, or finish.
    pub fn on_resumed(&mut self) -> (r: PauseAction)
        requires
            old(self).wf(),
            old(self).phase() == PausePhase::Resuming,
        ensures
            final(self).wf(),
            final(self).paused() == old(self).paused(),
            old(self).cursor() + 1 < old(self).paused().len() ==> final(self).phase()
                == PausePhase::Resuming && final(self).cursor() == old(self).cursor() + 1 && r
                == PauseAction::Resume(old(self).paused()[old(self).cursor() + 1]),
            old(self).cursor() + 1 == old(self).paused().len() ==> final(self).phase()
                == PausePhase::Finished && r == PauseAction::Finish(Ok(())),
    {
        if self.cursor < self.paused.len() - 1 {
            self.cursor = self.cursor + 1;
            PauseAction::Resume(self.paused[self.cursor])
        } else {
            self.phase = PausePhase::Finished;
            PauseAction::Finish(Ok(()))
        }
    }

    /// Where the session stands.
    pub fn current_phase(&self) -> (r: PausePhase)
        ensures
            r == self.phase(),
    {
        self.phase
    }
}

} // verus!
