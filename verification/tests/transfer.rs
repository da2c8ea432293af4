use demo_mover::catalog::Demo;
use demo_mover::config::{StorageConfig, StorageRoot};
use demo_mover::error::Error;
use demo_mover::transfer::{Action, Event, Notice, Stage, Transfer, DOWNLOAD_TIMEOUT_SECS};

const RECORDED: [u8; 16] = [
    0x90, 0x01, 0x50, 0x98, 0x3c, 0xd2, 0x4f, 0xb0, 0xd6, 0x96, 0x3f, 0x7d, 0x28, 0xe1, 0x7f, 0x72,
];

const OTHER: [u8; 16] = [
    0xd4, 0x1d, 0x8c, 0xd9, 0x8f, 0x00, 0xb2, 0x04, 0xe9, 0x80, 0x09, 0x98, 0xec, 0xf8, 0x42, 0x7e,
];

const SOURCE: &str = "/mnt/hot/de/ad/deadbeef.dem";

const TARGET: &str = "/mnt/cold/de/ad/deadbeef.dem";

fn demo() -> Demo {
    Demo {
        id: 314,
        path: String::from("2019/deadbeef.dem"),
        url: String::from("https://static.example.org/2019/deadbeef.dem"),
        hash: RECORDED,
        duration: 1805,
    }
}

fn root(dir: &str, backend: &str) -> StorageRoot {
    StorageRoot::new(&StorageConfig {
        root: String::from(dir),
        backend: String::from(backend),
    })
}

fn transfer() -> Transfer {
    Transfer::new(&demo(), &root("/mnt/hot/", "hot"), &root("/mnt/cold", "cold"))
}

fn update(digest: [u8; 16]) -> Action {
    Action::Update {
        id: 314,
        backend: String::from("cold"),
        path: String::from("2019/deadbeef.dem"),
        url: String::from("https://static.example.org/2019/deadbeef.dem"),
        digest,
    }
}

/// Hands `events` to `transfer` in turn; gives the actions that were asked
/// for and the notices of the steps.
fn drive(transfer: &mut Transfer, events: Vec<Event>) -> (Vec<Action>, Vec<Notice>) {
    let mut actions = Vec::new();
    let mut notices = Vec::new();
    for event in events {
        actions.push(transfer.action().unwrap());
        notices.push(transfer.handle(event).unwrap());
    }
    (actions, notices)
}

#[test]
fn a_new_transfer_knows_both_places() {
    let transfer = transfer();
    assert_eq!(transfer.source_path(), SOURCE);
    assert_eq!(transfer.target_path(), TARGET);
    assert_eq!(transfer.demo(), &demo());
    assert_eq!(transfer.stage(), &Stage::SourceCheck);
    assert_eq!(
        transfer.action(),
        Some(Action::ProbeSource {
            path: String::from(SOURCE)
        })
    );
}

#[test]
fn a_short_name_gives_no_transfer() {
    let mut short = demo();
    short.path = String::from("2019/abc");
    assert!(Transfer::try_new(&short, &root("/a", "a"), &root("/b", "b")).is_none());
    let mut just = demo();
    just.path = String::from("2019/abcd");
    let planned = Transfer::try_new(&just, &root("/a", "a"), &root("/b", "b")).unwrap();
    assert_eq!(planned.source_path(), "/a/ab/cd/abcd");
    assert_eq!(planned.target_path(), "/b/ab/cd/abcd");
}

#[test]
fn round_trip() {
    let mut transfer = transfer();
    let (actions, notices) = drive(
        &mut transfer,
        vec![
            Event::Found(true),
            Event::Found(false),
            Event::Done,
            Event::Digest(RECORDED),
            Event::Done,
            Event::Done,
        ],
    );
    assert_eq!(
        actions,
        vec![
            Action::ProbeSource {
                path: String::from(SOURCE)
            },
            Action::ProbeTarget {
                path: String::from(TARGET)
            },
            Action::Copy {
                source: String::from(SOURCE),
                target: String::from(TARGET)
            },
            Action::Digest {
                path: String::from(TARGET)
            },
            update(RECORDED),
            Action::RemoveSource {
                path: String::from(SOURCE)
            },
        ]
    );
    assert_eq!(notices, vec![Notice::Nothing; 6]);
    let updates = actions
        .iter()
        .filter(|action| matches!(action, Action::Update { .. }))
        .count();
    assert_eq!(updates, 1);
    assert_eq!(transfer.action(), None);
    assert_eq!(transfer.into_outcome(), Some(Ok(())));
}

#[test]
fn digest_mismatch_does_not_abort() {
    let mut transfer = transfer();
    let (actions, notices) = drive(
        &mut transfer,
        vec![
            Event::Found(true),
            Event::Found(false),
            Event::Done,
            Event::Digest(OTHER),
            Event::Done,
            Event::Done,
        ],
    );
    assert_eq!(
        notices[3],
        Notice::DigestMismatch {
            calculated: OTHER,
            stored: RECORDED
        }
    );
    assert_eq!(actions[4], update(OTHER));
    assert_eq!(
        actions[5],
        Action::RemoveSource {
            path: String::from(SOURCE)
        }
    );
    assert_eq!(transfer.into_outcome(), Some(Ok(())));
}

#[test]
fn missing_source_is_downloaded_to_the_target() {
    let mut transfer = transfer();
    let (actions, notices) = drive(
        &mut transfer,
        vec![Event::Found(false), Event::Done, Event::Digest(RECORDED)],
    );
    assert_eq!(
        actions,
        vec![
            Action::ProbeSource {
                path: String::from(SOURCE)
            },
            Action::Download {
                id: 314,
                target: String::from(TARGET),
                capacity: 30 * 1024,
                timeout_secs: 300
            },
            Action::Digest {
                path: String::from(TARGET)
            },
        ]
    );
    assert_eq!(
        notices,
        vec![Notice::SourceMissing, Notice::Nothing, Notice::Nothing]
    );
    assert_eq!(transfer.action(), Some(update(RECORDED)));
}

#[test]
fn download_may_take_five_minutes() {
    assert_eq!(DOWNLOAD_TIMEOUT_SECS, 5 * 60);
}

#[test]
fn download_timeout_ends_the_transfer_without_an_update() {
    let mut transfer = transfer();
    let (actions, _) = drive(&mut transfer, vec![Event::Found(false), Event::TimedOut]);
    assert!(actions
        .iter()
        .all(|action| !matches!(action, Action::Update { .. })));
    assert_eq!(transfer.action(), None);
    assert_eq!(transfer.handle(Event::Done), None);
    assert_eq!(transfer.into_outcome(), Some(Err(Error::Timeout)));
}

#[test]
fn download_failure_is_the_catalogs() {
    let mut transfer = transfer();
    drive(
        &mut transfer,
        vec![
            Event::Found(false),
            Event::ApiFailed(String::from("Demo 314 not found")),
        ],
    );
    assert_eq!(transfer.action(), None);
    assert_eq!(
        transfer.into_outcome(),
        Some(Err(Error::Api(String::from("Demo 314 not found"))))
    );
}

#[test]
fn download_that_cannot_be_written_fails() {
    let mut transfer = transfer();
    drive(
        &mut transfer,
        vec![
            Event::Found(false),
            Event::IoFailed(String::from("disk full")),
        ],
    );
    assert_eq!(
        transfer.into_outcome(),
        Some(Err(Error::Request(String::from("disk full"))))
    );
}

#[test]
fn rollback_removes_the_target_and_leaves_the_source() {
    let mut transfer = transfer();
    let (actions, notices) = drive(
        &mut transfer,
        vec![
            Event::Found(true),
            Event::Found(false),
            Event::Done,
            Event::Digest(RECORDED),
            Event::ApiFailed(String::from("Invalid api key")),
            Event::Done,
        ],
    );
    assert_eq!(
        notices[4],
        Notice::UpdateFailed {
            error: String::from("Invalid api key")
        }
    );
    assert_eq!(
        actions[5],
        Action::RemoveTarget {
            path: String::from(TARGET)
        }
    );
    assert!(actions
        .iter()
        .all(|action| !matches!(action, Action::RemoveSource { .. })));
    assert_eq!(transfer.action(), None);
    assert_eq!(
        transfer.into_outcome(),
        Some(Err(Error::Api(String::from("Invalid api key"))))
    );
}

#[test]
fn rollback_that_fails_reports_its_own_failure() {
    let mut transfer = transfer();
    drive(
        &mut transfer,
        vec![
            Event::Found(true),
            Event::Found(false),
            Event::Done,
            Event::Digest(RECORDED),
            Event::ApiFailed(String::from("Invalid api key")),
            Event::IoFailed(String::from("read-only file system")),
        ],
    );
    assert_eq!(
        transfer.into_outcome(),
        Some(Err(Error::Request(String::from("read-only file system"))))
    );
}

#[test]
fn existing_target_is_not_overwritten() {
    let mut transfer = transfer();
    let (actions, notices) = drive(
        &mut transfer,
        vec![
            Event::Found(true),
            Event::Found(true),
            Event::Digest(RECORDED),
            Event::Done,
            Event::Done,
        ],
    );
    assert_eq!(
        actions,
        vec![
            Action::ProbeSource {
                path: String::from(SOURCE)
            },
            Action::ProbeTarget {
                path: String::from(TARGET)
            },
            Action::Digest {
                path: String::from(TARGET)
            },
            update(RECORDED),
            Action::RemoveSource {
                path: String::from(SOURCE)
            },
        ]
    );
    assert_eq!(notices[1], Notice::TargetExists);
    assert_eq!(transfer.into_outcome(), Some(Ok(())));
}

#[test]
fn copy_failure_ends_the_transfer() {
    let mut transfer = transfer();
    drive(
        &mut transfer,
        vec![
            Event::Found(true),
            Event::Found(false),
            Event::IoFailed(String::from("no space left on device")),
        ],
    );
    assert_eq!(transfer.action(), None);
    assert_eq!(
        transfer.into_outcome(),
        Some(Err(Error::Request(String::from("no space left on device"))))
    );
}

#[test]
fn digest_failure_ends_the_transfer() {
    let mut transfer = transfer();
    drive(
        &mut transfer,
        vec![
            Event::Found(true),
            Event::Found(true),
            Event::IoFailed(String::from("input/output error")),
        ],
    );
    assert_eq!(
        transfer.into_outcome(),
        Some(Err(Error::Request(String::from("input/output error"))))
    );
}

#[test]
fn cleanup_failure_is_reported_after_the_update() {
    let mut transfer = transfer();
    let (actions, _) = drive(
        &mut transfer,
        vec![
            Event::Found(true),
            Event::Found(true),
            Event::Digest(RECORDED),
            Event::Done,
            Event::IoFailed(String::from("permission denied")),
        ],
    );
    assert_eq!(actions[3], update(RECORDED));
    assert_eq!(
        transfer.into_outcome(),
        Some(Err(Error::Request(String::from("permission denied"))))
    );
}

#[test]
fn an_event_that_answers_nothing_changes_nothing() {
    let mut transfer = transfer();
    assert_eq!(transfer.handle(Event::Done), None);
    assert_eq!(transfer.handle(Event::Digest(RECORDED)), None);
    assert_eq!(transfer.handle(Event::TimedOut), None);
    assert_eq!(transfer.handle(Event::ApiFailed(String::from("x"))), None);
    assert_eq!(transfer.handle(Event::IoFailed(String::from("x"))), None);
    assert_eq!(transfer.stage(), &Stage::SourceCheck);
    assert_eq!(transfer.handle(Event::Found(true)), Some(Notice::Nothing));
    assert_eq!(transfer.stage(), &Stage::TargetCheck);
    assert_eq!(transfer.handle(Event::TimedOut), None);
    assert_eq!(transfer.stage(), &Stage::TargetCheck);
}

#[test]
fn an_unfinished_transfer_has_no_outcome() {
    let mut transfer = transfer();
    drive(&mut transfer, vec![Event::Found(true)]);
    assert_eq!(transfer.into_outcome(), None);
}

#[test]
fn stages_follow_in_order() {
    let mut transfer = transfer();
    transfer.handle(Event::Found(true));
    assert_eq!(transfer.stage(), &Stage::TargetCheck);
    transfer.handle(Event::Found(false));
    assert_eq!(transfer.stage(), &Stage::Copy);
    transfer.handle(Event::Done);
    assert_eq!(transfer.stage(), &Stage::Verify);
    transfer.handle(Event::Digest(OTHER));
    assert_eq!(transfer.stage(), &Stage::Update { digest: OTHER });
    transfer.handle(Event::ApiFailed(String::from("refused")));
    assert_eq!(
        transfer.stage(),
        &Stage::Rollback {
            cause: String::from("refused")
        }
    );
    transfer.handle(Event::Done);
    assert_eq!(
        transfer.stage(),
        &Stage::Finished {
            result: Err(Error::Api(String::from("refused")))
        }
    );
}
