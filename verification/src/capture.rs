//! The capture coordinator: it waits for the companion process and the
//! game, takes screenshots at intervals while both run, and folds them into
//! the companion's latest archive when the game has ended.
//!
//! The coordinator is a machine that is shown the state of the world at
//! each tick and answers with what to do and how long to wait.

use crate::launch::{notify, notify_command};
use crate::text::{decimal, push_decimal, push_str, string_of};
use vstd::prelude::*;

verus! {

/// Counts the processes whose name holds `name`, through
/// `sysinfo::System::new_all` and `System::processes_by_name`. The count is
/// whatever the process table holds at the time of the call, so nothing is
/// claimed of it.
#[verifier::external_body]
fn process_count(name: &str) -> usize {
    sysinfo::System::new_all().processes_by_name(name.as_ref()).count()
}

/// The part of their name by which the companion's processes are known.
pub const COMPANION_NAME: &'static str = "oss";

/// Number of processes that the companion has while it records.
pub const RECORDING_PROCESSES: usize = 5;

/// Whether the companion runs, given the number of its processes.
pub fn companion_running(count: usize) -> (out: bool)
    ensures
        out == (count != 0),
{
    count != 0
}

/// Whether the companion records, given the number of its processes.
pub fn companion_capturing(count: usize) -> (out: bool)
    ensures
        out == (count == RECORDING_PROCESSES),
{
    count == RECORDING_PROCESSES
}

/// Whether the companion runs now: whether the process table holds a
/// process of its name. The answer is that of [`companion_running`] for the
/// count found; the count itself is the machine's to give.
pub fn moss_running() -> bool {
    companion_running(process_count(COMPANION_NAME))
}

/// Whether the companion records now: whether the process table holds as
/// many processes of its name as it has while recording. The answer is that
/// of [`companion_capturing`] for the count found.
pub fn moss_capturing() -> bool {
    companion_capturing(process_count(COMPANION_NAME))
}

/// Least time between two screenshots, in milliseconds.
pub const MIN_INTERVAL_MS: i64 = 10_000;

/// The stations of a capture.
#[derive(Clone, Copy, Debug, PartialEq, Eq, Structural)]
pub enum CaptureState {
    /// Capturing has not been switched on yet.
    WaitingForSignal,
    /// The companion is not running yet.
    WaitingForCompanion,
    /// The game is not running yet.
    WaitingForGame,
    /// Screenshots are being taken.
    Capturing,
    /// The game has ended; the companion has yet to end.
    Finalizing,
    /// The screenshots are ready to be put into the archive.
    Finished,
}

/// What the user is told.
#[derive(Clone, Copy, Debug, PartialEq, Eq, Structural)]
pub enum Prompt {
    OpenCompanion,
    GameNotRunning,
    CloseCompanion,
    RestartToCapture,
}

/// What the coordinator asks for at a tick.
#[derive(Clone, Copy, Debug, PartialEq, Eq, Structural)]
pub enum CaptureAction {
    /// Nothing.
    Idle,
    /// Tell the user.
    Notify(Prompt),
    /// Create the scratch directory unless it exists.
    PrepareScratch,
    /// Take the screenshot with this number.
    Screenshot(u64),
    /// Put the screenshots into the archive, then end the process.
    Finalize,
}

/// The state of the world at a tick.
#[derive(Clone, Copy, Debug, PartialEq, Eq, Structural)]
pub struct Observation {
    /// Whether capturing is switched on.
    pub capture_enabled: bool,
    /// Whether the companion runs.
    pub companion_running: bool,
    /// Whether the game runs.
    pub game_running: bool,
    /// Wall-clock time, in milliseconds.
    pub now_ms: i64,
}

/// The coordinator of one capture.
#[derive(Clone, Copy, Debug, PartialEq, Eq, Structural)]
pub struct Coordinator {
    pub state: CaptureState,
    /// Number of the next screenshot.
    pub next_shot: u64,
    /// When the last screenshot was taken, or capturing began.
    pub last_shot_ms: i64,
}

/// The answer to a tick: the coordinator from now on, what to do, and how
/// many seconds to wait before the next tick.
#[derive(Clone, Copy, Debug, PartialEq, Eq, Structural)]
pub struct Tick {
    pub next: Coordinator,
    pub action: CaptureAction,
    pub wait_secs: u64,
}

/// The number after `n`, where there is one that fits.
pub open spec fn successor(n: u64) -> u64 {
    if n < u64::MAX {
        (n + 1) as u64
    } else {
        n
    }
}

/// What the coordinator `c` answers when it is shown `obs`.
///
/// It moves from one station to the next as capturing is switched on, the
/// companion comes up and the game comes up, and reminds the user while it
/// waits for the companion or the game. While capturing it takes a
/// screenshot whenever at least the minimum interval has passed since the
/// last one, and none before. When the game has ended or capturing was
/// switched off it waits for the companion to end, and then asks for the
/// archive to be finished.
pub open spec fn tick_spec(c: Coordinator, obs: Observation) -> Tick {
    match c.state {
        CaptureState::WaitingForSignal => if obs.capture_enabled {
            Tick {
                next: Coordinator { state: CaptureState::WaitingForCompanion, ..c },
                action: CaptureAction::Idle,
                wait_secs: 0,
            }
        } else {
            Tick { next: c, action: CaptureAction::Idle, wait_secs: 2 }
        },
        CaptureState::WaitingForCompanion => if obs.companion_running {
            Tick {
                next: Coordinator { state: CaptureState::WaitingForGame, ..c },
                action: CaptureAction::Idle,
                wait_secs: 0,
            }
        } else {
            Tick { next: c, action: CaptureAction::Notify(Prompt::OpenCompanion), wait_secs: 3 }
        },
        CaptureState::WaitingForGame => if obs.game_running {
            Tick {
                next: Coordinator {
                    state: CaptureState::Capturing,
                    next_shot: 1,
                    last_shot_ms: obs.now_ms,
                },
                action: CaptureAction::PrepareScratch,
                wait_secs: 3,
            }
        } else {
            Tick { next: c, action: CaptureAction::Notify(Prompt::GameNotRunning), wait_secs: 3 }
        },
        CaptureState::Capturing => if !(obs.capture_enabled && obs.game_running) {
            Tick {
                next: Coordinator { state: CaptureState::Finalizing, ..c },
                action: CaptureAction::Idle,
                wait_secs: 0,
            }
        } else if obs.now_ms - c.last_shot_ms < MIN_INTERVAL_MS {
            Tick { next: c, action: CaptureAction::Idle, wait_secs: 0 }
        } else {
            Tick {
                next: Coordinator {
                    state: CaptureState::Capturing,
                    next_shot: successor(c.next_shot),
                    last_shot_ms: obs.now_ms,
                },
                action: CaptureAction::Screenshot(c.next_shot),
                wait_secs: 3,
            }
        },
        CaptureState::Finalizing => if obs.companion_running {
            Tick { next: c, action: CaptureAction::Notify(Prompt::CloseCompanion), wait_secs: 3 }
        } else {
            Tick {
                next: Coordinator { state: CaptureState::Finished, ..c },
                action: CaptureAction::Finalize,
                wait_secs: 0,
            }
        },
        CaptureState::Finished => Tick { next: c, action: CaptureAction::Idle, wait_secs: 0 },
    }
}

/// The coordinator of a new capture, where the user has switched the
/// assistance on; none where it is off.
pub fn start(assist: bool) -> (out: Option<Coordinator>)
    ensures
        out == if assist {
            Some(
                Coordinator {
                    state: CaptureState::WaitingForSignal,
                    next_shot: 1,
                    last_shot_ms: 0,
                },
            )
        } else {
            None
        },
{
    if assist {
        Some(Coordinator { state: CaptureState::WaitingForSignal, next_shot: 1, last_shot_ms: 0 })
    } else {
        None
    }
}

/// Answers a tick.
pub fn tick(c: Coordinator, obs: Observation) -> (out: Tick)
    ensures
        out == tick_spec(c, obs),
{
    let stay = |action: CaptureAction, wait_secs: u64| -> (t: Tick)
        ensures
            t == (Tick { next: c, action, wait_secs }),
        { Tick { next: c, action, wait_secs } };
    let go = |state: CaptureState| -> (t: Tick)
        ensures
            t == (Tick {
                next: Coordinator { state, ..c },
                action: CaptureAction::Idle,
                wait_secs: 0,
            }),
        {
            Tick {
                next: Coordinator { state, ..c },
                action: CaptureAction::Idle,
                wait_secs: 0,
            }
        };
    match c.state {
        CaptureState::WaitingForSignal => if obs.capture_enabled {
            go(CaptureState::WaitingForCompanion)
        } else {
            stay(CaptureAction::Idle, 2)
        },
        CaptureState::WaitingForCompanion => if obs.companion_running {
            go(CaptureState::WaitingForGame)
        } else {
            stay(CaptureAction::Notify(Prompt::OpenCompanion), 3)
        },
        CaptureState::WaitingForGame => if obs.game_running {
            Tick {
                next: Coordinator {
                    state: CaptureState::Capturing,
                    next_shot: 1,
                    last_shot_ms: obs.now_ms,
                },
                action: CaptureAction::PrepareScratch,
                wait_secs: 3,
            }
        } else {
            stay(CaptureAction::Notify(Prompt::GameNotRunning), 3)
        },
        CaptureState::Capturing => if !(obs.capture_enabled && obs.game_running) {
            go(CaptureState::Finalizing)
        } else if (obs.now_ms as i128) - (c.last_shot_ms as i128) < (MIN_INTERVAL_MS as i128) {
            stay(CaptureAction::Idle, 0)
        } else {
            Tick {
                next: Coordinator {
                    state: CaptureState::Capturing,
                    next_shot: c.next_shot.saturating_add(1),
                    last_shot_ms: obs.now_ms,
                },
                action: CaptureAction::Screenshot(c.next_shot),
                wait_secs: 3,
            }
        },
        CaptureState::Finalizing => if obs.companion_running {
            stay(CaptureAction::Notify(Prompt::CloseCompanion), 3)
        } else {
            Tick {
                next: Coordinator { state: CaptureState::Finished, ..c },
                action: CaptureAction::Finalize,
                wait_secs: 0,
            }
        },
        CaptureState::Finished => stay(CaptureAction::Idle, 0),
    }
}

/// Two screenshots in a row are at least the minimum interval apart: a
/// coordinator that takes one at a tick took the one before, or began to
/// capture, no less than that interval earlier.
pub proof fn lemma_screenshots_are_spaced(c: Coordinator, obs: Observation)
    requires
        tick_spec(c, obs).action is Screenshot,
    ensures
        c.state == CaptureState::Capturing,
        obs.now_ms - c.last_shot_ms >= MIN_INTERVAL_MS,
        tick_spec(c, obs).next.last_shot_ms == obs.now_ms,
        tick_spec(c, obs).action == CaptureAction::Screenshot(c.next_shot),
{
}

/// The directory that holds the screenshots until they are in the archive.
pub open spec fn scratch_dir() -> Seq<char> {
    "/tmp/codlinux_ss"@
}

/// The number of a screenshot, written with at least three digits.
pub open spec fn three_digits(n: nat) -> Seq<char> {
    if n < 10 {
        seq!['0', '0'] + decimal(n)
    } else if n < 100 {
        seq!['0'] + decimal(n)
    } else {
        decimal(n)
    }
}

/// The file that the screenshot with number `n` is written to.
pub open spec fn screenshot_file(n: nat) -> Seq<char> {
    scratch_dir() + seq!['/'] + three_digits(n) + ".JPG"@
}

/// The path of the file for the screenshot with number `n`.
pub fn screenshot_path(n: u64) -> (out: String)
    ensures
        out@ == screenshot_file(n as nat),
{
    let mut buf: Vec<char> = Vec::new();
    push_str(&mut buf, "/tmp/codlinux_ss");
    buf.push('/');
    if n < 10 {
        buf.push('0');
        buf.push('0');
    } else if n < 100 {
        buf.push('0');
    }
    push_decimal(&mut buf, n);
    push_str(&mut buf, ".JPG");
    assert(buf@ =~= screenshot_file(n as nat));
    string_of(&buf)
}

/// The words of a prompt.
pub open spec fn prompt_text(p: Prompt) -> Seq<char> {
    match p {
        Prompt::OpenCompanion => "Open Moss!"@,
        Prompt::GameNotRunning => "Game not running"@,
        Prompt::CloseCompanion => "Close Moss!"@,
        Prompt::RestartToCapture => "Restart CoDLinux for capturing agian."@,
    }
}

/// For how many milliseconds a prompt is shown.
pub open spec fn prompt_expiry(p: Prompt) -> u32 {
    match p {
        Prompt::OpenCompanion => 3000,
        Prompt::GameNotRunning => 3000,
        Prompt::CloseCompanion => 2000,
        Prompt::RestartToCapture => 5000,
    }
}

/// Whether a prompt may vanish without the user's doing. The last word,
/// that a restart is needed, stays.
pub open spec fn prompt_transient(p: Prompt) -> bool {
    !(p is RestartToCapture)
}

/// The shell command that shows a prompt as a desktop notification.
pub fn prompt_command(p: Prompt) -> (out: String)
    ensures
        out@ == notify_command(prompt_text(p), prompt_expiry(p), prompt_transient(p)),
{
    match p {
        Prompt::OpenCompanion => notify("Open Moss!", 3000, true),
        Prompt::GameNotRunning => notify("Game not running", 3000, true),
        Prompt::CloseCompanion => notify("Close Moss!", 2000, true),
        Prompt::RestartToCapture => notify("Restart CoDLinux for capturing agian.", 5000, false),
    }
}

/// An archive that the companion has written: its path, and when it was
/// last modified.
#[derive(Debug)]
pub struct Archive {
    pub path: String,
    pub modified_ms: i64,
}

/// Why no archive could be picked.
#[derive(Clone, Copy, Debug, PartialEq, Eq, Structural)]
pub enum ArchiveError {
    /// The companion has written no archive.
    NoArchives,
    /// Two archives share the latest modification time.
    Ambiguous,
}

/// Whether the archive at position `i` was modified after every other one.
pub open spec fn is_latest(archives: Seq<Archive>, i: int) -> bool {
    &&& 0 <= i < archives.len()
    &&& forall|j: int|
        0 <= j < archives.len() && j != i ==> (#[trigger] archives[j]).modified_ms
            < archives[i].modified_ms
}

/// Picks the archive that was modified last.
///
/// The choice is made only where it is beyond doubt: with no archive at
/// all, or with two that share the latest modification time, it fails.
pub fn latest_archive(archives: &Vec<Archive>) -> (out: Result<usize, ArchiveError>)
    ensures
        match out {
            Ok(i) => is_latest(archives@, i as int),
            Err(ArchiveError::NoArchives) => archives.len() == 0,
            Err(ArchiveError::Ambiguous) => archives.len() > 0 && forall|i: int| !is_latest(
                archives@,
                i,
            ),
        },
{
    if archives.len() == 0 {
        return Err(ArchiveError::NoArchives);
    }
    let mut best: usize = 0;
    let mut tied: bool = false;
    let mut twin: usize = 0;
    let mut i: usize = 1;
    while i < archives.len()
        invariant
            1 <= i <= archives.len(),
            best < i,
            forall|j: int| 0 <= j < i ==> (#[trigger] archives[j]).modified_ms
                <= archives[best as int].modified_ms,
            !tied ==> forall|j: int|
                0 <= j < i && j != best ==> (#[trigger] archives[j]).modified_ms
                    < archives[best as int].modified_ms,
            tied ==> twin < i && twin != best && archives[twin as int].modified_ms
                == archives[best as int].modified_ms,
        decreases archives.len() - i,
    {
        if archives[i].modified_ms > archives[best].modified_ms {
            best = i;
            tied = false;
        } else if archives[i].modified_ms == archives[best].modified_ms {
            tied = true;
            twin = i;
        }
        i += 1;
    }
    if tied {
        assert forall|k: int| !is_latest(archives@, k) by {
            if is_latest(archives@, k) {
                if k == best {
                    assert(archives[twin as int].modified_ms < archives[k].modified_ms);
                } else {
                    assert(archives[best as int].modified_ms < archives[k].modified_ms);
                    assert(archives[k].modified_ms <= archives[best as int].modified_ms);
                }
            }
        }
        Err(ArchiveError::Ambiguous)
    } else {
        Ok(best)
    }
}

/// A shell command of the last part of a capture.
#[derive(Debug)]
pub struct FinalStep {
    /// The command.
    pub command: String,
    /// Whether it runs in the scratch directory.
    pub in_scratch: bool,
    /// Seconds to wait before it runs.
    pub pause_secs: u64,
    /// Whether its failure is told to the user, and not only logged.
    pub critical: bool,
}

/// The commands of the steps.
pub open spec fn commands_of(steps: Seq<FinalStep>) -> Seq<Seq<char>> {
    Seq::new(steps.len(), |i: int| steps[i].command@)
}

/// The commands that put the screenshots into the archive `zip`: strip
/// the screenshots that an earlier capture left in it, add the new ones,
/// move the originals into the directory of processed files, and tell the
/// user that a restart is needed.
pub open spec fn final_commands(zip: Seq<char>) -> Seq<Seq<char>> {
    seq![
        "zip -d "@ + zip + " *.JPG"@,
        "zip -rv "@ + zip + " ./*"@,
        "mkdir /tmp/codlinux_ss/old"@,
        "mv /tmp/codlinux_ss/*.JPG /tmp/codlinux_ss/old"@,
        notify_command(
            prompt_text(Prompt::RestartToCapture),
            prompt_expiry(Prompt::RestartToCapture),
            prompt_transient(Prompt::RestartToCapture),
        ),
    ]
}

fn zip_command(verb: &str, zip: &str, tail: &str) -> (out: String)
    ensures
        out@ == verb@ + zip@ + tail@,
{
    let mut buf: Vec<char> = Vec::new();
    push_str(&mut buf, verb);
    push_str(&mut buf, zip);
    push_str(&mut buf, tail);
    string_of(&buf)
}

/// Plans the last part of a capture: which archive the screenshots go
/// into, and by which commands.
///
/// Every step is run, whether or not the one before it failed; then the
/// process ends. Only the failure to add the screenshots is told to the
/// user. That step runs in the scratch directory, one second after the
/// archive was stripped.
pub fn finalize(archives: &Vec<Archive>) -> (out: Result<Vec<FinalStep>, ArchiveError>)
    ensures
        match out {
            Ok(steps) => exists|i: int|
                is_latest(archives@, i) && commands_of(steps@) == final_commands(
                    #[trigger] archives[i].path@,
                ),
            Err(ArchiveError::NoArchives) => archives.len() == 0,
            Err(ArchiveError::Ambiguous) => archives.len() > 0 && forall|i: int| !is_latest(
                archives@,
                i,
            ),
        },
        out is Ok ==> out->Ok_0@.len() == 5 && (forall|k: int|
            0 <= k < 5 ==> ((#[trigger] out->Ok_0@[k]).critical <==> k == 1) && (out->Ok_0@[k].in_scratch
                <==> k == 1) && out->Ok_0@[k].pause_secs == (if k == 1 {
                1u64
            } else {
                0u64
            })),
{
    let at = match latest_archive(archives) {
        Ok(i) => i,
        Err(e) => {
            return Err(e);
        },
    };
    let zip = archives[at].path.as_str();
    let mut steps: Vec<FinalStep> = Vec::new();
    steps.push(
        FinalStep {
            command: zip_command("zip -d ", zip, " *.JPG"),
            in_scratch: false,
            pause_secs: 0,
            critical: false,
        },
    );
    steps.push(
        FinalStep {
            command: zip_command("zip -rv ", zip, " ./*"),
            in_scratch: true,
            pause_secs: 1,
            critical: true,
        },
    );
    steps.push(
        FinalStep {
            command: "mkdir /tmp/codlinux_ss/old".to_owned(),
            in_scratch: false,
            pause_secs: 0,
            critical: false,
        },
    );
    steps.push(
        FinalStep {
            command: "mv /tmp/codlinux_ss/*.JPG /tmp/codlinux_ss/old".to_owned(),
            in_scratch: false,
            pause_secs: 0,
            critical: false,
        },
    );
    steps.push(
        FinalStep {
            command: prompt_command(Prompt::RestartToCapture),
            in_scratch: false,
            pause_secs: 0,
            critical: false,
        },
    );
    assert(commands_of(steps@) =~= final_commands(archives[at as int].path@));
    Ok(steps)
}

/// The shell command that empties the scratch directory before a capture.
pub fn clear_scratch_command() -> (out: String)
    ensures
        out@ == "rm -rf /tmp/codlinux_ss/*"@,
{
    "rm -rf /tmp/codlinux_ss/*".to_owned()
}

} // verus!
