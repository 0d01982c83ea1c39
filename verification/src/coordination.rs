//! The little state that the user-interface loop and the background tasks
//! share: three flags about updates, and which kinds of task are busy.

use vstd::prelude::*;

verus! {

/// The flags about updates. Each is written by one role only: the
/// download task says that it started and that it finished, the check task
/// says that an update is available, and the user interface takes that
/// notice away once it has seen it.
#[derive(Clone, Copy, Debug, PartialEq, Eq, Structural)]
pub struct Flags {
    pub download_started: bool,
    pub download_finished: bool,
    pub update_available: bool,
}

impl Flags {
    /// The flags at the start of the process: none is set.
    pub fn new() -> (out: Flags)
        ensures
            out == (Flags {
                download_started: false,
                download_finished: false,
                update_available: false,
            }),
    {
        Flags { download_started: false, download_finished: false, update_available: false }
    }

    /// Asks to begin a download. It may begin unless one has begun or
    /// finished before; then the flag for "started" is set.
    pub fn begin_download(&mut self) -> (may: bool)
        ensures
            may == !(old(self).download_started || old(self).download_finished),
            may ==> *final(self) == (Flags { download_started: true, ..*old(self) }),
            !may ==> *final(self) == *old(self),
    {
        if self.download_started || self.download_finished {
            false
        } else {
            self.download_started = true;
            true
        }
    }

    /// Records that the download has finished.
    pub fn finish_download(&mut self)
        ensures
            *final(self) == (Flags { download_finished: true, ..*old(self) }),
    {
        self.download_finished = true;
    }

    /// Records that an update is available.
    pub fn announce_update(&mut self)
        ensures
            *final(self) == (Flags { update_available: true, ..*old(self) }),
    {
        self.update_available = true;
    }

    /// Tells whether an update has been announced, and takes the notice
    /// away: it is seen once.
    pub fn take_update(&mut self) -> (seen: bool)
        ensures
            seen == old(self).update_available,
            *final(self) == (Flags { update_available: false, ..*old(self) }),
    {
        let seen = self.update_available;
        self.update_available = false;
        seen
    }
}

/// The kinds of background task. Of each kind one task runs at a time.
#[derive(Clone, Copy, Debug, PartialEq, Eq, Structural)]
pub enum TaskKind {
    Launch,
    Check,
    Download,
    Capture,
}

/// A task of the kind is running already.
#[derive(Clone, Copy, Debug, PartialEq, Eq, Structural)]
pub struct AlreadyRunning(pub TaskKind);

/// Which kinds of task are busy.
#[derive(Clone, Copy, Debug, PartialEq, Eq, Structural)]
pub struct TaskSlots {
    pub launch: bool,
    pub check: bool,
    pub download: bool,
    pub capture: bool,
}

impl TaskSlots {
    /// Whether a task of the kind is running.
    pub open spec fn busy(self, kind: TaskKind) -> bool {
        match kind {
            TaskKind::Launch => self.launch,
            TaskKind::Check => self.check,
            TaskKind::Download => self.download,
            TaskKind::Capture => self.capture,
        }
    }

    /// The slots with the one for `kind` set to `value`.
    pub open spec fn with(self, kind: TaskKind, value: bool) -> TaskSlots {
        match kind {
            TaskKind::Launch => TaskSlots { launch: value, ..self },
            TaskKind::Check => TaskSlots { check: value, ..self },
            TaskKind::Download => TaskSlots { download: value, ..self },
            TaskKind::Capture => TaskSlots { capture: value, ..self },
        }
    }

    /// The slots at the start of the process: nothing runs.
    pub fn new() -> (out: TaskSlots)
        ensures
            forall|k: TaskKind| !out.busy(k),
    {
        TaskSlots { launch: false, check: false, download: false, capture: false }
    }

    /// Executable form of [`TaskSlots::busy`].
    pub fn is_busy(&self, kind: TaskKind) -> (out: bool)
        ensures
            out == self.busy(kind),
    {
        match kind {
            TaskKind::Launch => self.launch,
            TaskKind::Check => self.check,
            TaskKind::Download => self.download,
            TaskKind::Capture => self.capture,
        }
    }

    fn set(&mut self, kind: TaskKind, value: bool)
        ensures
            *final(self) == old(self).with(kind, value),
    {
        match kind {
            TaskKind::Launch => self.launch = value,
            TaskKind::Check => self.check = value,
            TaskKind::Download => self.download = value,
            TaskKind::Capture => self.capture = value,
        }
    }

    /// Takes the slot of a kind for a new task. Where a task of the kind
    /// is running the request is refused and nothing changes.
    pub fn try_start(&mut self, kind: TaskKind) -> (out: Result<(), AlreadyRunning>)
        ensures
            match out {
                Ok(_) => !old(self).busy(kind) && *final(self) == old(self).with(kind, true),
                Err(e) => old(self).busy(kind) && e == AlreadyRunning(kind)
                    && *final(self) == *old(self),
            },
    {
        if self.is_busy(kind) {
            Err(AlreadyRunning(kind))
        } else {
            self.set(kind, true);
            Ok(())
        }
    }

    /// Frees the slot of a kind when its task has been joined.
    pub fn finished(&mut self, kind: TaskKind)
        ensures
            *final(self) == old(self).with(kind, false),
    {
        self.set(kind, false);
    }
}

/// Of one kind no two tasks run at once: a second start before the first
/// has finished is refused, whatever happened to the other kinds in
/// between.
pub proof fn lemma_one_task_per_kind(slots: TaskSlots, kind: TaskKind, other: TaskKind, v: bool)
    requires
        other != kind,
    ensures
        slots.with(kind, true).busy(kind),
        slots.with(kind, true).with(other, v).busy(kind),
        !slots.with(kind, false).busy(kind),
{
}

} // verus!
