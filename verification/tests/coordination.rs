use codlinux::coordination::{AlreadyRunning, Flags, TaskKind, TaskSlots};

#[test]
fn flags_start_unset() {
    let f = Flags::new();
    assert_eq!(
        f,
        Flags { download_started: false, download_finished: false, update_available: false }
    );
}

#[test]
fn a_download_begins_once() {
    let mut f = Flags::new();
    assert!(f.begin_download());
    assert!(f.download_started);
    assert!(!f.begin_download());
    f.finish_download();
    assert!(f.download_finished);
    assert!(!f.begin_download());
    let mut done = Flags { download_started: false, download_finished: true, update_available: false };
    assert!(!done.begin_download());
    assert!(!done.download_started);
}

#[test]
fn the_notice_of_an_update_is_seen_once() {
    let mut f = Flags::new();
    assert!(!f.take_update());
    f.announce_update();
    assert!(f.update_available);
    assert!(f.take_update());
    assert!(!f.take_update());
    assert!(!f.update_available);
}

#[test]
fn flags_do_not_disturb_each_other() {
    let mut f = Flags::new();
    f.announce_update();
    f.begin_download();
    f.finish_download();
    assert_eq!(f, Flags { download_started: true, download_finished: true, update_available: true });
    f.take_update();
    assert_eq!(f, Flags { download_started: true, download_finished: true, update_available: false });
}

#[test]
fn one_task_of_a_kind_at_a_time() {
    let mut slots = TaskSlots::new();
    for kind in [TaskKind::Launch, TaskKind::Check, TaskKind::Download, TaskKind::Capture] {
        assert!(!slots.is_busy(kind));
        assert_eq!(slots.try_start(kind), Ok(()));
        assert!(slots.is_busy(kind));
        assert_eq!(slots.try_start(kind), Err(AlreadyRunning(kind)));
        assert!(slots.is_busy(kind));
    }
    slots.finished(TaskKind::Download);
    assert!(!slots.is_busy(TaskKind::Download));
    assert!(slots.is_busy(TaskKind::Launch));
    assert_eq!(slots.try_start(TaskKind::Download), Ok(()));
    assert_eq!(slots.try_start(TaskKind::Launch), Err(AlreadyRunning(TaskKind::Launch)));
}
