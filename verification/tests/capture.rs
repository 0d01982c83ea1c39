use codlinux::capture::{
    clear_scratch_command, companion_capturing, companion_running, finalize, latest_archive,
    moss_capturing, moss_running, prompt_command, screenshot_path, start, tick, Archive,
    ArchiveError, CaptureAction, CaptureState, Coordinator, Observation, Prompt, Tick,
    MIN_INTERVAL_MS,
};

fn obs(capture: bool, companion: bool, game: bool, now_ms: i64) -> Observation {
    Observation { capture_enabled: capture, companion_running: companion, game_running: game, now_ms }
}

fn at(state: CaptureState) -> Coordinator {
    Coordinator { state, next_shot: 1, last_shot_ms: 0 }
}

fn archive(path: &str, modified_ms: i64) -> Archive {
    Archive { path: path.to_string(), modified_ms }
}

#[test]
fn without_assistance_no_capture_starts() {
    assert_eq!(start(false), None);
}

#[test]
fn with_assistance_the_coordinator_waits_for_the_signal() {
    assert_eq!(start(true), Some(at(CaptureState::WaitingForSignal)));
}

#[test]
fn the_scratch_directory_is_asked_for_only_when_the_game_runs() {
    let mut c = start(true).unwrap();
    let world = [
        obs(false, false, false, 0),
        obs(true, false, false, 1),
        obs(true, false, false, 2),
        obs(true, true, false, 3),
        obs(true, true, false, 4),
    ];
    for o in world {
        let t = tick(c, o);
        assert_ne!(t.action, CaptureAction::PrepareScratch);
        assert!(!matches!(t.action, CaptureAction::Screenshot(_)));
        c = t.next;
    }
    assert_eq!(c.state, CaptureState::WaitingForGame);
    let t = tick(c, obs(true, true, true, 5000));
    assert_eq!(t.action, CaptureAction::PrepareScratch);
    assert_eq!(t.wait_secs, 3);
    assert_eq!(t.next, Coordinator { state: CaptureState::Capturing, next_shot: 1, last_shot_ms: 5000 });
}

#[test]
fn waiting_for_the_signal() {
    let c = at(CaptureState::WaitingForSignal);
    assert_eq!(tick(c, obs(false, true, true, 0)), Tick { next: c, action: CaptureAction::Idle, wait_secs: 2 });
    assert_eq!(
        tick(c, obs(true, false, false, 0)),
        Tick { next: at(CaptureState::WaitingForCompanion), action: CaptureAction::Idle, wait_secs: 0 }
    );
}

#[test]
fn waiting_for_the_companion_reminds_the_user() {
    let c = at(CaptureState::WaitingForCompanion);
    assert_eq!(
        tick(c, obs(true, false, true, 0)),
        Tick { next: c, action: CaptureAction::Notify(Prompt::OpenCompanion), wait_secs: 3 }
    );
    assert_eq!(tick(c, obs(true, true, false, 0)).next.state, CaptureState::WaitingForGame);
}

#[test]
fn waiting_for_the_game_reminds_the_user() {
    let c = at(CaptureState::WaitingForGame);
    assert_eq!(
        tick(c, obs(true, true, false, 0)),
        Tick { next: c, action: CaptureAction::Notify(Prompt::GameNotRunning), wait_secs: 3 }
    );
}

#[test]
fn screenshots_keep_the_minimum_interval() {
    assert_eq!(MIN_INTERVAL_MS, 10_000);
    let c = Coordinator { state: CaptureState::Capturing, next_shot: 4, last_shot_ms: 50_000 };
    let early = tick(c, obs(true, true, true, 59_999));
    assert_eq!(early, Tick { next: c, action: CaptureAction::Idle, wait_secs: 0 });
    let due = tick(c, obs(true, true, true, 60_000));
    assert_eq!(due.action, CaptureAction::Screenshot(4));
    assert_eq!(due.wait_secs, 3);
    assert_eq!(due.next, Coordinator { state: CaptureState::Capturing, next_shot: 5, last_shot_ms: 60_000 });
    let clock_went_back = tick(c, obs(true, true, true, -1));
    assert_eq!(clock_went_back.action, CaptureAction::Idle);
}

#[test]
fn the_interval_is_computed_without_overflow() {
    let c = Coordinator { state: CaptureState::Capturing, next_shot: u64::MAX, last_shot_ms: i64::MIN };
    let t = tick(c, obs(true, true, true, i64::MAX));
    assert_eq!(t.action, CaptureAction::Screenshot(u64::MAX));
    assert_eq!(t.next.next_shot, u64::MAX);
    let c = Coordinator { state: CaptureState::Capturing, next_shot: 1, last_shot_ms: i64::MAX };
    assert_eq!(tick(c, obs(true, true, true, i64::MIN)).action, CaptureAction::Idle);
}

#[test]
fn capturing_ends_with_the_game_or_the_signal() {
    let c = Coordinator { state: CaptureState::Capturing, next_shot: 3, last_shot_ms: 0 };
    let t = tick(c, obs(true, true, false, 100_000));
    assert_eq!(t.action, CaptureAction::Idle);
    assert_eq!(t.next.state, CaptureState::Finalizing);
    assert_eq!(tick(c, obs(false, true, true, 100_000)).next.state, CaptureState::Finalizing);
}

#[test]
fn finalizing_waits_for_the_companion_to_end() {
    let c = at(CaptureState::Finalizing);
    assert_eq!(
        tick(c, obs(false, true, false, 0)),
        Tick { next: c, action: CaptureAction::Notify(Prompt::CloseCompanion), wait_secs: 3 }
    );
    let t = tick(c, obs(false, false, false, 0));
    assert_eq!(t.action, CaptureAction::Finalize);
    assert_eq!(t.next.state, CaptureState::Finished);
    assert_eq!(tick(t.next, obs(true, true, true, 0)).action, CaptureAction::Idle);
    assert_eq!(tick(t.next, obs(true, true, true, 0)).next, t.next);
}

#[test]
fn companion_state_from_its_process_count() {
    assert!(!companion_running(0));
    assert!(companion_running(1));
    assert!(companion_running(5));
    assert!(!companion_capturing(0));
    assert!(!companion_capturing(4));
    assert!(companion_capturing(5));
    assert!(!companion_capturing(6));
}

#[test]
fn the_process_table_can_be_asked() {
    let running = moss_running();
    let capturing = moss_capturing();
    assert!(running || !running);
    assert!(capturing || !capturing);
}

#[test]
fn screenshot_paths_have_three_digits_at_least() {
    assert_eq!(screenshot_path(1), "/tmp/codlinux_ss/001.JPG");
    assert_eq!(screenshot_path(0), "/tmp/codlinux_ss/000.JPG");
    assert_eq!(screenshot_path(9), "/tmp/codlinux_ss/009.JPG");
    assert_eq!(screenshot_path(10), "/tmp/codlinux_ss/010.JPG");
    assert_eq!(screenshot_path(99), "/tmp/codlinux_ss/099.JPG");
    assert_eq!(screenshot_path(100), "/tmp/codlinux_ss/100.JPG");
    assert_eq!(screenshot_path(12345), "/tmp/codlinux_ss/12345.JPG");
}

#[test]
fn prompts() {
    assert_eq!(
        prompt_command(Prompt::OpenCompanion),
        "notify-send --app-name=CoDLinux --icon=codlinux --transient --expire-time=3000 CoDLinux \"Open Moss!\""
    );
    assert_eq!(
        prompt_command(Prompt::GameNotRunning),
        "notify-send --app-name=CoDLinux --icon=codlinux --transient --expire-time=3000 CoDLinux \"Game not running\""
    );
    assert_eq!(
        prompt_command(Prompt::CloseCompanion),
        "notify-send --app-name=CoDLinux --icon=codlinux --transient --expire-time=2000 CoDLinux \"Close Moss!\""
    );
    assert_eq!(
        prompt_command(Prompt::RestartToCapture),
        "notify-send --app-name=CoDLinux --icon=codlinux --expire-time=5000 CoDLinux \"Restart CoDLinux for capturing agian.\""
    );
}

#[test]
fn the_latest_archive_is_picked() {
    let a = vec![archive("a.zip", 10), archive("b.zip", 30), archive("c.zip", 20)];
    assert_eq!(latest_archive(&a), Ok(1));
    assert_eq!(latest_archive(&vec![archive("only.zip", -5)]), Ok(0));
    let a = vec![archive("a.zip", 30), archive("b.zip", 30), archive("c.zip", 31)];
    assert_eq!(latest_archive(&a), Ok(2));
}

#[test]
fn no_archive_is_an_error() {
    assert_eq!(latest_archive(&Vec::new()), Err(ArchiveError::NoArchives));
    assert_eq!(finalize(&Vec::new()).unwrap_err(), ArchiveError::NoArchives);
}

#[test]
fn two_latest_archives_are_an_error() {
    let a = vec![archive("a.zip", 30), archive("b.zip", 10), archive("c.zip", 30)];
    assert_eq!(latest_archive(&a), Err(ArchiveError::Ambiguous));
    assert_eq!(finalize(&a).unwrap_err(), ArchiveError::Ambiguous);
    let a = vec![archive("a.zip", 1), archive("b.zip", 1)];
    assert_eq!(latest_archive(&a), Err(ArchiveError::Ambiguous));
}

#[test]
fn the_last_steps_of_a_capture() {
    let a = vec![archive("/home/u/moss/old.zip", 1), archive("/home/u/moss/new.zip", 2)];
    let steps = finalize(&a).unwrap();
    let commands: Vec<&str> = steps.iter().map(|s| s.command.as_str()).collect();
    assert_eq!(
        commands,
        vec![
            "zip -d /home/u/moss/new.zip *.JPG",
            "zip -rv /home/u/moss/new.zip ./*",
            "mkdir /tmp/codlinux_ss/old",
            "mv /tmp/codlinux_ss/*.JPG /tmp/codlinux_ss/old",
            "notify-send --app-name=CoDLinux --icon=codlinux --expire-time=5000 CoDLinux \"Restart CoDLinux for capturing agian.\"",
        ]
    );
    let critical: Vec<bool> = steps.iter().map(|s| s.critical).collect();
    assert_eq!(critical, vec![false, true, false, false, false]);
    let in_scratch: Vec<bool> = steps.iter().map(|s| s.in_scratch).collect();
    assert_eq!(in_scratch, vec![false, true, false, false, false]);
    let pauses: Vec<u64> = steps.iter().map(|s| s.pause_secs).collect();
    assert_eq!(pauses, vec![0, 1, 0, 0, 0]);
}

#[test]
fn the_scratch_directory_is_emptied_first() {
    assert_eq!(clear_scratch_command(), "rm -rf /tmp/codlinux_ss/*");
}
