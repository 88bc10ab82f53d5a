use coffret_device::error::{CreationStep, Error};
use coffret_device::join::{FoundOnStorage, JoinedProvider};
use coffret_device::join_flow::{Join, JoinAction, JoinEvent, JoinPhase, JoinStep};

fn s3(prefix: &str) -> JoinedProvider {
    JoinedProvider::S3 {
        bucket: "photos".to_owned(),
        prefix: prefix.to_owned(),
        endpoint: None,
        region: Some("us-east-1".to_owned()),
        path_style: true,
    }
}

fn drive() -> JoinedProvider {
    JoinedProvider::Drive {
        folder_id: "stub-library-folder".to_owned(),
        client_id: "client.apps.googleusercontent.com".to_owned(),
        client_secret: None,
    }
}

/// Answers each step with `event`, and says which step was asked for.
fn answer(join: Join, event: JoinEvent) -> (Join, JoinAction) {
    join.next(event)
}

fn expect_step(action: &JoinAction, step: JoinStep) {
    assert!(
        matches!(action, JoinAction::Do(asked) if *asked == step),
        "expected {step:?}, got {action:?}"
    );
}

#[test]
fn an_s3_join_asks_every_keyless_question_before_the_passphrase() {
    let (join, action) = Join::start("joined".to_owned(), s3("archive/coffret-0123456789abcdef/"));
    let mut asked = vec![];
    let mut join = join;
    let mut action = action;
    loop {
        let step = match &action {
            JoinAction::Do(step) => *step,
            JoinAction::Joined(joined) => {
                assert_eq!(joined.settings.library_id.to_hex(), "0123456789abcdef");
                assert_eq!(joined.found, FoundOnStorage::NothingYet);
                assert_eq!(joined.path, "/state/coffret/libraries/joined");
                assert_eq!(joined.settings.provider.kind(), "s3");
                break;
            }
            other => panic!("the join must not stop: {other:?}"),
        };
        asked.push(step);
        let event = match step {
            JoinStep::CheckLibraryObject => JoinEvent::Held(false),
            JoinStep::Publish => JoinEvent::Published("/state/coffret/libraries/joined".to_owned()),
            _ => JoinEvent::Done,
        };
        (join, action) = answer(join, event);
    }
    assert_eq!(
        asked,
        [
            JoinStep::CheckName,
            JoinStep::CheckBucket,
            JoinStep::CheckLibraryObject,
            JoinStep::ReadRecoveryCode,
            JoinStep::BeginStaging,
            JoinStep::ReadPassphrase,
            JoinStep::StoreMasterKey,
            JoinStep::CreateIndex,
            JoinStep::CreateSpool,
            JoinStep::WriteSettings,
            JoinStep::Publish,
        ]
    );
    assert_eq!(join.phase(), JoinPhase::Over);
    assert!(matches!(join.next(JoinEvent::Done).1, JoinAction::Nothing));
}

#[test]
fn a_drive_join_reads_which_library_it_is_out_of_the_folder_s_name() {
    let (join, action) = Join::start("joined-on-drive".to_owned(), drive());
    expect_step(&action, JoinStep::CheckName);
    let (join, action) = join.next(JoinEvent::Done);
    expect_step(&action, JoinStep::ReadRecoveryCode);
    let (join, action) = join.next(JoinEvent::Done);
    expect_step(&action, JoinStep::BeginStaging);
    let (join, action) = join.next(JoinEvent::Done);
    expect_step(&action, JoinStep::ReadPassphrase);
    let (join, action) = join.next(JoinEvent::Done);
    expect_step(&action, JoinStep::StoreMasterKey);
    let (join, action) = join.next(JoinEvent::Done);
    expect_step(&action, JoinStep::Authorize);
    let (join, action) = join.next(JoinEvent::Done);
    expect_step(&action, JoinStep::ReadFolderName);
    let (join, action) = join.next(JoinEvent::FolderNamed("coffret-0123456789abcdef".to_owned()));
    expect_step(&action, JoinStep::AskFolderContents);
    let (join, action) = join.next(JoinEvent::Held(true));
    expect_step(&action, JoinStep::CreateIndex);
    let settings = join.settings().expect("the place is settled");
    assert_eq!(settings.library_id.to_hex(), "0123456789abcdef");
    assert_eq!(settings.provider.kind(), "drive");
    let (join, _) = join.next(JoinEvent::Done);
    let (join, _) = join.next(JoinEvent::Done);
    let (join, action) = join.next(JoinEvent::Done);
    expect_step(&action, JoinStep::Publish);
    let (_, action) = join.next(JoinEvent::Published("/libraries/joined-on-drive".to_owned()));
    assert!(matches!(
        action,
        JoinAction::Joined(joined) if joined.found == FoundOnStorage::TheLibrary
    ));
}

#[test]
fn a_drive_folder_that_is_not_a_library_s_is_refused_and_the_staging_taken_away() {
    let (mut join, _) = Join::start("misnamed-on-drive".to_owned(), drive());
    for _ in 0..6 {
        join = join.next(JoinEvent::Done).0;
    }
    assert_eq!(join.phase(), JoinPhase::ReadingFolderName);
    let (join, action) = join.next(JoinEvent::FolderNamed("Holiday photos".to_owned()));
    assert!(
        matches!(
            &action,
            JoinAction::DiscardAndFail(Error::LibraryNotJoined { name, step: CreationStep::AppFolderName, cause })
                if name == "misnamed-on-drive"
                    && matches!(&**cause, Error::NotALibraryFolder { location, .. } if location == "Holiday photos")
        ),
        "expected the folder's name to be refused, got {action:?}"
    );
    assert_eq!(join.phase(), JoinPhase::Over);
}

#[test]
fn a_prefix_that_is_not_a_library_s_is_refused_before_anything_is_staged() {
    let (join, _) = Join::start("elsewhere".to_owned(), s3("archive/"));
    let (join, action) = join.next(JoinEvent::Done);
    assert!(matches!(
        &action,
        JoinAction::Fail(Error::NotALibraryFolder { location, cause: None }) if location == "archive/"
    ));
    assert_eq!(join.phase(), JoinPhase::Over);
}

#[test]
fn a_failure_before_the_staging_directory_leaves_nothing_to_take_away() {
    let (join, _) = Join::start("joined".to_owned(), drive());
    let (join, _) = join.next(JoinEvent::Done);
    let (_, action) = join.next(JoinEvent::Failed(Error::RecoveryCodeNotGiven {
        cause: coffret_device::error::Cause {
            said: "standard input ended before a Recovery Code was given".to_owned(),
            redacted: "Input::Ended".to_owned(),
        },
    }));
    assert!(matches!(action, JoinAction::Fail(Error::RecoveryCodeNotGiven { .. })));
}

#[test]
fn a_catalog_that_will_not_open_stops_the_join_at_that_step() {
    let (mut join, _) = Join::start("catalog-refused".to_owned(), s3("coffret-0123456789abcdef/"));
    join = join.next(JoinEvent::Done).0;
    join = join.next(JoinEvent::Done).0;
    join = join.next(JoinEvent::Held(true)).0;
    for _ in 0..4 {
        join = join.next(JoinEvent::Done).0;
    }
    assert_eq!(join.phase(), JoinPhase::CreatingIndex);
    let (_, action) = join.next(JoinEvent::Failed(Error::Index {
        cause: coffret_device::error::Cause {
            said: "the catalog could not be created".to_owned(),
            redacted: "Index::Open".to_owned(),
        },
    }));
    assert!(
        matches!(
            &action,
            JoinAction::DiscardAndFail(Error::LibraryNotJoined { step: CreationStep::Index, cause, .. })
                if matches!(&**cause, Error::Index { .. })
        ),
        "expected the join to stop at the catalog, got {action:?}"
    );
}

#[test]
fn a_passphrase_that_is_refused_is_the_caller_s_own_refusal() {
    let (mut join, _) = Join::start("no-passphrase".to_owned(), drive());
    for _ in 0..3 {
        join = join.next(JoinEvent::Done).0;
    }
    assert_eq!(join.phase(), JoinPhase::ReadingPassphrase);
    let (_, action) = join.next(JoinEvent::Failed(Error::PassphraseNotGiven {
        cause: coffret_device::error::Cause {
            said: "standard input ended before a Passphrase was given".to_owned(),
            redacted: "Input::Ended".to_owned(),
        },
    }));
    assert!(matches!(action, JoinAction::DiscardAndFail(Error::PassphraseNotGiven { .. })));
}

#[test]
fn an_answer_to_another_step_is_no_answer() {
    let (join, _) = Join::start("joined".to_owned(), drive());
    let (join, action) = join.next(JoinEvent::Held(true));
    expect_step(&action, JoinStep::CheckName);
    assert_eq!(join.phase(), JoinPhase::CheckingName);
}
