//! The steps of installing a release, as a machine that is told how each
//! step ended and answers with the step to take next.
//!
//! The machine never asks for the installed binary to be removed before the
//! new one has been written out in full: removing, renaming and marking
//! executable are the last three steps.

use crate::text::{push_str, string_of};
use crate::updater::{Asset, DownloadProgress};
use vstd::prelude::*;

verus! {

/// Timeout of a request for release metadata, in seconds.
pub const CHECK_TIMEOUT_SECS: u64 = 10;

/// Timeout of the download of an asset, in seconds. A download may be
/// slow, so it gets longer than a check.
pub const DOWNLOAD_TIMEOUT_SECS: u64 = 60;

/// The steps of an installation, in the order in which they are taken.
#[derive(Clone, Copy, Debug, PartialEq, Eq, Structural)]
pub enum Stage {
    /// Building the HTTP client.
    BuildClient,
    /// Fetching the release and picking its first asset.
    ResolveAsset,
    /// Sending the request for the asset.
    Request,
    /// Creating the temporary file beside the installed binary.
    CreateTemp,
    /// Waiting for the next chunk of the response body.
    ReadChunk,
    /// Writing a chunk to the temporary file.
    WriteChunk,
    /// Removing the installed binary.
    RemoveOld,
    /// Renaming the temporary file into the binary's place.
    Rename,
    /// Marking the new binary executable.
    SetExecutable,
}

impl Stage {
    /// Whether the step comes before the installed binary is touched.
    pub open spec fn before_swap(self) -> bool {
        !(self is RemoveOld || self is Rename || self is SetExecutable)
    }
}

/// Where an installation stands.
#[derive(Clone, Copy, Debug, PartialEq, Eq, Structural)]
pub enum Phase {
    /// The step has been asked for and its outcome is awaited.
    Pending(Stage),
    /// The new binary is in place.
    Done,
    /// The step failed, which ended the installation.
    Failed(Stage),
}

/// The kinds of failure that the machine tells apart.
#[derive(Clone, Copy, Debug, PartialEq, Eq, Structural)]
pub enum Failure {
    /// The operation ran out of time.
    Timeout,
    /// The file to work on does not exist.
    NotFound,
    /// Anything else.
    Other,
}

/// How the pending step ended.
#[derive(Debug)]
pub enum Event {
    /// The step succeeded.
    Succeeded,
    /// The release was fetched; this is its first asset, if it has one.
    Release(Option<Asset>),
    /// A chunk of this many bytes arrived.
    Chunk(u64),
    /// The response body has ended.
    EndOfStream,
    /// The step failed.
    Failed(Failure, String),
}

/// The mathematical value of an [`Event`].
pub enum EventView {
    Succeeded,
    Release(Option<(Seq<char>, u64)>),
    Chunk(u64),
    EndOfStream,
    Failed(Failure, Seq<char>),
}

impl View for Event {
    type V = EventView;

    open spec fn view(&self) -> EventView {
        match *self {
            Event::Succeeded => EventView::Succeeded,
            Event::Release(Some(a)) => EventView::Release(Some((a.url@, a.size))),
            Event::Release(None) => EventView::Release(None),
            Event::Chunk(n) => EventView::Chunk(n),
            Event::EndOfStream => EventView::EndOfStream,
            Event::Failed(k, m) => EventView::Failed(k, m@),
        }
    }
}

/// What to do next.
#[derive(Debug)]
pub enum Command {
    /// Build an HTTP client with this timeout.
    BuildClient(u64),
    /// Fetch the latest release.
    FetchRelease,
    /// Request the asset at this address and require a success status.
    Get(String),
    /// Show this progress, then create the temporary file.
    CreateTemp(DownloadProgress),
    /// Show this progress, then wait for the next chunk.
    ReadChunk(DownloadProgress),
    /// Write the chunk that arrived to the temporary file.
    WriteChunk,
    /// Remove the installed binary; its absence is no failure.
    RemoveOld,
    /// Rename the temporary file into the binary's place.
    Rename,
    /// Mark the binary executable.
    SetExecutable,
    /// Show this message and end the process, so that the new binary runs
    /// at the next start.
    Succeed(String),
    /// Show this error. The process goes on.
    Fail(String),
    /// The event answers no pending step: do nothing.
    Ignore,
}

/// The mathematical value of a [`Command`].
pub enum CommandView {
    BuildClient(u64),
    FetchRelease,
    Get(Seq<char>),
    CreateTemp(DownloadProgress),
    ReadChunk(DownloadProgress),
    WriteChunk,
    RemoveOld,
    Rename,
    SetExecutable,
    Succeed(Seq<char>),
    Fail(Seq<char>),
    Ignore,
}

impl View for Command {
    type V = CommandView;

    open spec fn view(&self) -> CommandView {
        match *self {
            Command::BuildClient(t) => CommandView::BuildClient(t),
            Command::FetchRelease => CommandView::FetchRelease,
            Command::Get(u) => CommandView::Get(u@),
            Command::CreateTemp(p) => CommandView::CreateTemp(p),
            Command::ReadChunk(p) => CommandView::ReadChunk(p),
            Command::WriteChunk => CommandView::WriteChunk,
            Command::RemoveOld => CommandView::RemoveOld,
            Command::Rename => CommandView::Rename,
            Command::SetExecutable => CommandView::SetExecutable,
            Command::Succeed(m) => CommandView::Succeed(m@),
            Command::Fail(m) => CommandView::Fail(m@),
            Command::Ignore => CommandView::Ignore,
        }
    }
}

impl CommandView {
    /// Whether carrying out the command changes the installed binary.
    pub open spec fn touches_binary(self) -> bool {
        self is RemoveOld || self is Rename || self is SetExecutable
    }
}

/// The state of an installation.
#[derive(Debug)]
pub struct Installer {
    /// Where the installation stands.
    pub phase: Phase,
    /// Address of the asset, once it is known.
    pub url: String,
    /// Bytes written so far, and the size of the asset.
    pub progress: DownloadProgress,
    /// Size of the chunk that is being written.
    pub chunk: u64,
}

/// The mathematical value of an [`Installer`].
pub struct InstallerView {
    pub phase: Phase,
    pub url: Seq<char>,
    pub progress: DownloadProgress,
    pub chunk: u64,
}

impl View for Installer {
    type V = InstallerView;

    open spec fn view(&self) -> InstallerView {
        InstallerView {
            phase: self.phase,
            url: self.url@,
            progress: self.progress,
            chunk: self.chunk,
        }
    }
}

/// What is shown when the step `stage` fails in the way `kind`, before the
/// colon and the error's own words.
pub open spec fn failure_prefix(stage: Stage, kind: Failure) -> Seq<char> {
    match stage {
        Stage::BuildClient => "HTTP client init failed"@,
        Stage::ResolveAsset => "Release fetch failed"@,
        Stage::Request => if kind is Timeout {
            "download timed out"@
        } else {
            "download failed"@
        },
        Stage::CreateTemp => "Cannot create file"@,
        Stage::ReadChunk => "Network chunk error"@,
        Stage::WriteChunk => "Write failed"@,
        Stage::RemoveOld => "Failed to remove old file"@,
        Stage::Rename => "File install error"@,
        Stage::SetExecutable => "File install error"@,
    }
}

/// The error shown when the step `stage` fails.
pub open spec fn failure_text(stage: Stage, kind: Failure, message: Seq<char>) -> Seq<char> {
    failure_prefix(stage, kind) + ": "@ + message
}

/// The error shown for a release without assets.
pub open spec fn no_assets_text() -> Seq<char> {
    "No downloadable assets in release."@
}

/// The message of a finished installation.
pub open spec fn success_text() -> Seq<char> {
    "Success!"@
}

/// The state at the start, when the HTTP client has been asked for.
pub open spec fn initial() -> InstallerView {
    InstallerView {
        phase: Phase::Pending(Stage::BuildClient),
        url: Seq::empty(),
        progress: DownloadProgress { downloaded: 0, total: 0 },
        chunk: 0,
    }
}

/// The state and the command that follow when the step `stage` succeeded
/// in state `s`.
pub open spec fn advance(s: InstallerView, stage: Stage) -> (InstallerView, CommandView) {
    match stage {
        Stage::BuildClient => (
            InstallerView { phase: Phase::Pending(Stage::ResolveAsset), ..s },
            CommandView::FetchRelease,
        ),
        Stage::ResolveAsset => (s, CommandView::Ignore),
        Stage::Request => (
            InstallerView { phase: Phase::Pending(Stage::CreateTemp), ..s },
            CommandView::CreateTemp(s.progress),
        ),
        Stage::CreateTemp => (
            InstallerView { phase: Phase::Pending(Stage::ReadChunk), ..s },
            CommandView::ReadChunk(s.progress),
        ),
        Stage::ReadChunk => (s, CommandView::Ignore),
        Stage::WriteChunk => (
            InstallerView {
                phase: Phase::Pending(Stage::ReadChunk),
                progress: s.progress.after(s.chunk as nat),
                ..s
            },
            CommandView::ReadChunk(s.progress.after(s.chunk as nat)),
        ),
        Stage::RemoveOld => (
            InstallerView { phase: Phase::Pending(Stage::Rename), ..s },
            CommandView::Rename,
        ),
        Stage::Rename => (
            InstallerView { phase: Phase::Pending(Stage::SetExecutable), ..s },
            CommandView::SetExecutable,
        ),
        Stage::SetExecutable => (
            InstallerView { phase: Phase::Done, ..s },
            CommandView::Succeed(success_text()),
        ),
    }
}

/// The state and the command that follow the event `e` in state `s`.
///
/// A finished or failed installation ignores every event. While a step is
/// pending, its failure ends the installation with the error for that
/// step, except that a binary which was not there to be removed counts as
/// removed. A success leads to the next step. The release is awaited only
/// while the asset is being resolved, and chunks and the end of the body
/// only while one is being read; elsewhere they are ignored.
pub open spec fn step_spec(s: InstallerView, e: EventView) -> (InstallerView, CommandView) {
    match s.phase {
        Phase::Done => (s, CommandView::Ignore),
        Phase::Failed(_) => (s, CommandView::Ignore),
        Phase::Pending(stage) => match e {
            EventView::Failed(kind, message) => if stage is RemoveOld && kind is NotFound {
                advance(s, stage)
            } else {
                (
                    InstallerView { phase: Phase::Failed(stage), ..s },
                    CommandView::Fail(failure_text(stage, kind, message)),
                )
            },
            EventView::Succeeded => advance(s, stage),
            EventView::Release(asset) => if stage is ResolveAsset {
                match asset {
                    Some((url, size)) => (
                        InstallerView {
                            phase: Phase::Pending(Stage::Request),
                            url,
                            progress: DownloadProgress { downloaded: 0, total: size },
                            chunk: s.chunk,
                        },
                        CommandView::Get(url),
                    ),
                    None => (
                        InstallerView { phase: Phase::Failed(Stage::ResolveAsset), ..s },
                        CommandView::Fail(no_assets_text()),
                    ),
                }
            } else {
                (s, CommandView::Ignore)
            },
            EventView::Chunk(n) => if stage is ReadChunk {
                (
                    InstallerView { phase: Phase::Pending(Stage::WriteChunk), chunk: n, ..s },
                    CommandView::WriteChunk,
                )
            } else {
                (s, CommandView::Ignore)
            },
            EventView::EndOfStream => if stage is ReadChunk {
                (
                    InstallerView { phase: Phase::Pending(Stage::RemoveOld), ..s },
                    CommandView::RemoveOld,
                )
            } else {
                (s, CommandView::Ignore)
            },
        },
    }
}

fn failure_message(stage: Stage, kind: Failure, message: &str) -> (out: String)
    ensures
        out@ == failure_text(stage, kind, message@),
{
    let mut buf: Vec<char> = Vec::new();
    match stage {
        Stage::BuildClient => push_str(&mut buf, "HTTP client init failed"),
        Stage::ResolveAsset => push_str(&mut buf, "Release fetch failed"),
        Stage::Request => match kind {
            Failure::Timeout => push_str(&mut buf, "download timed out"),
            _ => push_str(&mut buf, "download failed"),
        },
        Stage::CreateTemp => push_str(&mut buf, "Cannot create file"),
        Stage::ReadChunk => push_str(&mut buf, "Network chunk error"),
        Stage::WriteChunk => push_str(&mut buf, "Write failed"),
        Stage::RemoveOld => push_str(&mut buf, "Failed to remove old file"),
        Stage::Rename => push_str(&mut buf, "File install error"),
        Stage::SetExecutable => push_str(&mut buf, "File install error"),
    }
    assert(buf@ =~= failure_prefix(stage, kind));
    push_str(&mut buf, ": ");
    push_str(&mut buf, message);
    string_of(&buf)
}

impl Installer {
    /// Starts an installation: the state in which the HTTP client has been
    /// asked for, and the command that asks for it.
    pub fn begin() -> (out: (Installer, Command))
        ensures
            out.0@ == initial(),
            out.1@ == CommandView::BuildClient(DOWNLOAD_TIMEOUT_SECS),
            DOWNLOAD_TIMEOUT_SECS > CHECK_TIMEOUT_SECS,
    {
        (
            Installer {
                phase: Phase::Pending(Stage::BuildClient),
                url: String::new(),
                progress: DownloadProgress::start(0),
                chunk: 0,
            },
            Command::BuildClient(DOWNLOAD_TIMEOUT_SECS),
        )
    }

    fn succeed(self, stage: Stage) -> (out: (Installer, Command))
        ensures
            (out.0@, out.1@) == advance(self@, stage),
    {
        match stage {
            Stage::BuildClient => (
                Installer { phase: Phase::Pending(Stage::ResolveAsset), ..self },
                Command::FetchRelease,
            ),
            Stage::ResolveAsset => (self, Command::Ignore),
            Stage::Request => {
                let p = self.progress;
                (Installer { phase: Phase::Pending(Stage::CreateTemp), ..self }, Command::CreateTemp(p))
            },
            Stage::CreateTemp => {
                let p = self.progress;
                (Installer { phase: Phase::Pending(Stage::ReadChunk), ..self }, Command::ReadChunk(p))
            },
            Stage::ReadChunk => (self, Command::Ignore),
            Stage::WriteChunk => {
                let mut p = self.progress;
                p.advance(self.chunk);
                (
                    Installer { phase: Phase::Pending(Stage::ReadChunk), progress: p, ..self },
                    Command::ReadChunk(p),
                )
            },
            Stage::RemoveOld => (
                Installer { phase: Phase::Pending(Stage::Rename), ..self },
                Command::Rename,
            ),
            Stage::Rename => (
                Installer { phase: Phase::Pending(Stage::SetExecutable), ..self },
                Command::SetExecutable,
            ),
            Stage::SetExecutable => (
                Installer { phase: Phase::Done, ..self },
                Command::Succeed("Success!".to_owned()),
            ),
        }
    }

    /// Takes in how the pending step ended and says what to do next.
    pub fn step(self, event: Event) -> (out: (Installer, Command))
        ensures
            (out.0@, out.1@) == step_spec(self@, event@),
    {
        let stage = match self.phase {
            Phase::Pending(stage) => stage,
            _ => {
                return (self, Command::Ignore);
            },
        };
        match event {
            Event::Failed(kind, message) => {
                let tolerated = match (stage, kind) {
                    (Stage::RemoveOld, Failure::NotFound) => true,
                    _ => false,
                };
                if tolerated {
                    self.succeed(stage)
                } else {
                    let text = failure_message(stage, kind, message.as_str());
                    (Installer { phase: Phase::Failed(stage), ..self }, Command::Fail(text))
                }
            },
            Event::Succeeded => self.succeed(stage),
            Event::Release(asset) => match stage {
                Stage::ResolveAsset => match asset {
                    Some(a) => {
                        let url = a.url.clone();
                        (
                            Installer {
                                phase: Phase::Pending(Stage::Request),
                                url: a.url,
                                progress: DownloadProgress::start(a.size),
                                chunk: self.chunk,
                            },
                            Command::Get(url),
                        )
                    },
                    None => (
                        Installer { phase: Phase::Failed(Stage::ResolveAsset), ..self },
                        Command::Fail("No downloadable assets in release.".to_owned()),
                    ),
                },
                _ => (self, Command::Ignore),
            },
            Event::Chunk(n) => match stage {
                Stage::ReadChunk => (
                    Installer { phase: Phase::Pending(Stage::WriteChunk), chunk: n, ..self },
                    Command::WriteChunk,
                ),
                _ => (self, Command::Ignore),
            },
            Event::EndOfStream => match stage {
                Stage::ReadChunk => (
                    Installer { phase: Phase::Pending(Stage::RemoveOld), ..self },
                    Command::RemoveOld,
                ),
                _ => (self, Command::Ignore),
            },
        }
    }
}

/// The state reached, and the commands given, when the installation is
/// started and then told of the events `events` in turn.
pub open spec fn run(events: Seq<EventView>) -> (InstallerView, Seq<CommandView>)
    decreases events.len(),
{
    if events.len() == 0 {
        (initial(), seq![CommandView::BuildClient(DOWNLOAD_TIMEOUT_SECS)])
    } else {
        let before = run(events.drop_last());
        let next = step_spec(before.0, events.last());
        (next.0, before.1.push(next.1))
    }
}

/// The step that a phase is about, if it is about one.
pub open spec fn stage_of(p: Phase) -> Option<Stage> {
    match p {
        Phase::Pending(s) => Some(s),
        Phase::Failed(s) => Some(s),
        Phase::Done => None,
    }
}

/// As long as the installation is at a step before the swap, pending or
/// failed, no command has touched the installed binary.
pub proof fn lemma_binary_untouched_before_swap(events: Seq<EventView>)
    ensures
        stage_of(run(events).0.phase) is Some && stage_of(run(events).0.phase)->0.before_swap()
            ==> forall|i: int|
            0 <= i < run(events).1.len() ==> !(#[trigger] run(events).1[i]).touches_binary(),
    decreases events.len(),
{
    if events.len() > 0 {
        lemma_binary_untouched_before_swap(events.drop_last());
        let before = run(events.drop_last());
        let next = step_spec(before.0, events.last());
        if stage_of(next.0.phase) is Some && stage_of(next.0.phase)->0.before_swap() {
            assert(stage_of(before.0.phase) is Some && stage_of(before.0.phase)->0.before_swap());
            assert(!next.1.touches_binary());
            assert forall|i: int| 0 <= i < run(events).1.len() implies !(
            #[trigger] run(events).1[i]).touches_binary() by {
                if i < before.1.len() {
                    assert(run(events).1[i] == before.1[i]);
                }
            }
        }
    }
}

/// An installation that fails at any step before the swap has given no
/// command that removes, replaces or changes the installed binary: the
/// binary that was there is still there, as it was.
pub proof fn lemma_failed_install_keeps_binary(events: Seq<EventView>, stage: Stage)
    requires
        run(events).0.phase == Phase::Failed(stage),
        stage.before_swap(),
    ensures
        forall|i: int|
            0 <= i < run(events).1.len() ==> !(#[trigger] run(events).1[i]).touches_binary(),
{
    lemma_binary_untouched_before_swap(events);
}

/// The installed binary is removed only when the whole body has been
/// written out: the command to remove it answers the end of the stream,
/// and nothing else.
pub proof fn lemma_remove_follows_staging(s: InstallerView, e: EventView)
    requires
        step_spec(s, e).1 is RemoveOld,
    ensures
        s.phase == Phase::Pending(Stage::ReadChunk),
        e is EndOfStream,
{
}

} // verus!
