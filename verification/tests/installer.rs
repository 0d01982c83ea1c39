use codlinux::installer::{
    Command, Event, Failure, Installer, Phase, Stage, CHECK_TIMEOUT_SECS, DOWNLOAD_TIMEOUT_SECS,
};
use codlinux::updater::{Asset, DownloadProgress};

fn asset() -> Option<Asset> {
    Some(Asset { url: "https://example.invalid/codlinux".to_string(), size: 300 })
}

fn show(c: &Command) -> String {
    format!("{:?}", c)
}

fn touches_binary(c: &Command) -> bool {
    matches!(c, Command::RemoveOld | Command::Rename | Command::SetExecutable)
}

/// Runs the machine over the events and gives the last state and every command.
fn run(events: Vec<Event>) -> (Installer, Vec<Command>) {
    let (mut state, first) = Installer::begin();
    let mut commands = vec![first];
    for e in events {
        let (next, c) = state.step(e);
        state = next;
        commands.push(c);
    }
    (state, commands)
}

fn fail(message: &str) -> Event {
    Event::Failed(Failure::Other, message.to_string())
}

#[test]
fn the_download_gets_more_time_than_the_check() {
    assert_eq!(CHECK_TIMEOUT_SECS, 10);
    assert_eq!(DOWNLOAD_TIMEOUT_SECS, 60);
    let (state, first) = Installer::begin();
    assert_eq!(state.phase, Phase::Pending(Stage::BuildClient));
    assert_eq!(show(&first), "BuildClient(60)");
}

#[test]
fn a_whole_installation() {
    let (state, commands) = run(vec![
        Event::Succeeded,
        Event::Release(asset()),
        Event::Succeeded,
        Event::Succeeded,
        Event::Chunk(100),
        Event::Succeeded,
        Event::Chunk(200),
        Event::Succeeded,
        Event::EndOfStream,
        Event::Succeeded,
        Event::Succeeded,
        Event::Succeeded,
    ]);
    assert_eq!(state.phase, Phase::Done);
    assert_eq!(state.progress, DownloadProgress { downloaded: 300, total: 300 });
    let shown: Vec<String> = commands.iter().map(show).collect();
    assert_eq!(
        shown,
        vec![
            "BuildClient(60)",
            "FetchRelease",
            "Get(\"https://example.invalid/codlinux\")",
            "CreateTemp(DownloadProgress { downloaded: 0, total: 300 })",
            "ReadChunk(DownloadProgress { downloaded: 0, total: 300 })",
            "WriteChunk",
            "ReadChunk(DownloadProgress { downloaded: 100, total: 300 })",
            "WriteChunk",
            "ReadChunk(DownloadProgress { downloaded: 300, total: 300 })",
            "RemoveOld",
            "Rename",
            "SetExecutable",
            "Succeed(\"Success!\")",
        ]
    );
}

#[test]
fn an_absent_binary_counts_as_removed() {
    let (state, commands) = run(vec![
        Event::Succeeded,
        Event::Release(asset()),
        Event::Succeeded,
        Event::Succeeded,
        Event::EndOfStream,
        Event::Failed(Failure::NotFound, "No such file".to_string()),
    ]);
    assert_eq!(state.phase, Phase::Pending(Stage::Rename));
    assert_eq!(show(commands.last().unwrap()), "Rename");
}

#[test]
fn absence_is_tolerated_only_when_removing() {
    let (state, commands) = run(vec![
        Event::Succeeded,
        Event::Release(asset()),
        Event::Succeeded,
        Event::Failed(Failure::NotFound, "no dir".to_string()),
    ]);
    assert_eq!(state.phase, Phase::Failed(Stage::CreateTemp));
    assert_eq!(show(commands.last().unwrap()), "Fail(\"Cannot create file: no dir\")");
}

#[test]
fn every_step_fails_with_its_own_words() {
    let prefix = vec![
        Event::Succeeded,
        Event::Release(asset()),
        Event::Succeeded,
        Event::Succeeded,
        Event::Chunk(5),
        Event::Succeeded,
        Event::EndOfStream,
        Event::Succeeded,
        Event::Succeeded,
    ];
    let expected = [
        (Stage::BuildClient, "HTTP client init failed: boom"),
        (Stage::ResolveAsset, "Release fetch failed: boom"),
        (Stage::Request, "download failed: boom"),
        (Stage::CreateTemp, "Cannot create file: boom"),
        (Stage::ReadChunk, "Network chunk error: boom"),
        (Stage::WriteChunk, "Write failed: boom"),
        (Stage::ReadChunk, "Network chunk error: boom"),
        (Stage::RemoveOld, "Failed to remove old file: boom"),
        (Stage::Rename, "File install error: boom"),
        (Stage::SetExecutable, "File install error: boom"),
    ];
    for (n, (stage, words)) in expected.iter().enumerate() {
        let mut events: Vec<Event> = Vec::new();
        for e in prefix.iter().take(n) {
            events.push(match e {
                Event::Succeeded => Event::Succeeded,
                Event::Release(_) => Event::Release(asset()),
                Event::Chunk(k) => Event::Chunk(*k),
                Event::EndOfStream => Event::EndOfStream,
                Event::Failed(k, m) => Event::Failed(*k, m.clone()),
            });
        }
        events.push(fail("boom"));
        let (state, commands) = run(events);
        assert_eq!(state.phase, Phase::Failed(*stage));
        assert_eq!(show(commands.last().unwrap()), format!("Fail({:?})", words));
    }
}

#[test]
fn a_timeout_of_the_request_is_told_apart() {
    let (state, commands) = run(vec![
        Event::Succeeded,
        Event::Release(asset()),
        Event::Failed(Failure::Timeout, "deadline".to_string()),
    ]);
    assert_eq!(state.phase, Phase::Failed(Stage::Request));
    assert_eq!(show(commands.last().unwrap()), "Fail(\"download timed out: deadline\")");
    let (_, commands) = run(vec![Event::Failed(Failure::Timeout, "deadline".to_string())]);
    assert_eq!(show(commands.last().unwrap()), "Fail(\"HTTP client init failed: deadline\")");
}

#[test]
fn a_release_without_assets_fails() {
    let (state, commands) = run(vec![Event::Succeeded, Event::Release(None)]);
    assert_eq!(state.phase, Phase::Failed(Stage::ResolveAsset));
    assert_eq!(show(commands.last().unwrap()), "Fail(\"No downloadable assets in release.\")");
}

#[test]
fn a_failure_before_the_swap_never_touches_the_binary() {
    let steps_before_swap = 8;
    for n in 0..steps_before_swap {
        let all = [
            Event::Succeeded,
            Event::Release(asset()),
            Event::Succeeded,
            Event::Succeeded,
            Event::Chunk(150),
            Event::Succeeded,
            Event::Chunk(150),
            Event::Succeeded,
        ];
        let mut events: Vec<Event> = all.into_iter().take(n).collect();
        events.push(fail("cut"));
        let (state, commands) = run(events);
        assert!(matches!(state.phase, Phase::Failed(_)));
        assert!(commands.iter().all(|c| !touches_binary(c)));
    }
}

#[test]
fn a_finished_or_failed_installation_ignores_events() {
    let (state, _) = run(vec![fail("x")]);
    let (state, c) = state.step(Event::Succeeded);
    assert_eq!(state.phase, Phase::Failed(Stage::BuildClient));
    assert_eq!(show(&c), "Ignore");
    let (state, c) = state.step(Event::EndOfStream);
    assert_eq!(state.phase, Phase::Failed(Stage::BuildClient));
    assert_eq!(show(&c), "Ignore");
}

#[test]
fn an_event_that_answers_no_pending_step_is_ignored() {
    let (state, commands) = run(vec![Event::Chunk(9), Event::EndOfStream, Event::Release(asset())]);
    assert_eq!(state.phase, Phase::Pending(Stage::BuildClient));
    assert_eq!(state.url, "");
    for c in &commands[1..] {
        assert_eq!(show(c), "Ignore");
    }
    let (state, commands) =
        run(vec![Event::Succeeded, Event::Succeeded, Event::Release(asset()), Event::Succeeded,
            Event::Succeeded, Event::Succeeded]);
    assert_eq!(show(&commands[2]), "Ignore");
    assert_eq!(state.phase, Phase::Pending(Stage::ReadChunk));
    assert_eq!(show(commands.last().unwrap()), "Ignore");
}
