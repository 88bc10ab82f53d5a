use coffret_device::error::{BelowRootRefusal, LocalOperation};
use coffret_device::root_marker::marker_identity;
use coffret_device::error::said::{MANAGEMENT_AREA, MARKER_FILE};
use coffret_device::error::source::Link;
use coffret_device::error::{
    Cause, ClientMismatch, CreationStep, DescentRefusal, DriveCause, Error, FetchRefusal,
    FetchVerdict, LocalRefusal, PromotionObstacle, RefusedRoot,
};

/// What one link of a chain says to a person.
fn link_said(link: Link<'_>) -> String {
    link.said()
}

/// The links a caller printing the whole chain reads, outermost first.
fn chain(error: &Error) -> Vec<String> {
    let mut links = vec![error.said()];
    let mut below = error.source();
    while let Some(link) = below {
        links.push(link.said());
        below = link.below();
    }
    links
}

fn cause(said: &str, redacted: &str) -> Cause {
    Cause {
        said: said.to_owned(),
        redacted: redacted.to_owned(),
    }
}

fn permission_denied() -> String {
    std::io::Error::from(std::io::ErrorKind::PermissionDenied).to_string()
}

fn local(operation: &str, path: &str, said: String) -> LocalRefusal {
    LocalRefusal {
        operation: operation.to_owned(),
        path: path.to_owned(),
        redacted: format!("Local::Io(operation={operation}, kind=PermissionDenied)"),
        cause: Cause {
            said,
            redacted: "PermissionDenied".to_owned(),
        },
    }
}

fn library_already_here() {
    let error = Error::LibraryExists {
        name: "holiday-photos".to_owned(),
        path: "/home/someone/.local/state/coffret/holiday-photos".to_owned(),
    };

    assert!(error.said().contains("holiday-photos"));
    assert_eq!(error.redacted(), "Device::LibraryExists");
}

#[test]
fn tests_a_library_that_is_already_here_is_recorded_without_its_name() {
    library_already_here();
}

#[test]
fn error_a_library_that_is_already_here_is_recorded_without_its_name() {
    library_already_here();
}

fn library_already_served() {
    let error = Error::LibraryAlreadyServed {
        name: "holiday-photos".to_owned(),
        by: Some(4213),
    };

    let said = error.said();
    assert!(said.contains("holiday-photos"), "{said}");
    assert!(said.contains("4213"), "{said}");
    assert_eq!(error.redacted(), "Device::LibraryAlreadyServed(by=4213)");

    let anonymous = Error::LibraryAlreadyServed {
        name: "holiday-photos".to_owned(),
        by: None,
    };

    let said = anonymous.said();
    assert!(said.contains("holiday-photos"), "{said}");
    assert!(!said.contains("process"), "{said}");
    assert_eq!(
        anonymous.redacted(),
        "Device::LibraryAlreadyServed(by=unknown)"
    );
}

#[test]
fn tests_a_library_already_being_served_is_recorded_without_its_name() {
    library_already_served();
}

#[test]
fn error_a_library_already_being_served_is_recorded_without_its_name() {
    library_already_served();
}

fn server_key_not_drawn() {
    let reported = getrandom::Error::UNSUPPORTED;
    let error = Error::ServerKeyNotDrawn {
        cause: cause(&reported.to_string(), "Entropy::Unsupported"),
    };

    assert!(
        matches!(error.source(), Some(Link::Outside(c)) if c.said == reported.to_string()),
        "the chain reaches the source"
    );
    assert_eq!(
        chain(&error),
        vec![
            "the key this server would admit its callers by could not be drawn".to_owned(),
            reported.to_string(),
        ],
    );
    assert_eq!(
        error.redacted(),
        format!("Device::ServerKeyNotDrawn: {reported}"),
    );
}

#[test]
fn tests_a_server_key_that_could_not_be_drawn_carries_what_the_source_reported() {
    server_key_not_drawn();
}

#[test]
fn error_a_server_key_that_could_not_be_drawn_carries_what_the_source_reported() {
    server_key_not_drawn();
}

fn fetch_chain() {
    let error = Error::Fetch {
        cause: cause(
            "albums/spring.jpg has no place on this device: /home/someone/albums is in the way",
            "Fetch::UnmaterializablePath(path_len=17, descent=blocked)",
        ),
    };

    assert_eq!(
        error.redacted(),
        "Device::Fetch: Fetch::UnmaterializablePath(path_len=17, descent=blocked)",
    );
}

#[test]
fn tests_a_fetch_that_could_not_place_a_file_records_the_whole_chain() {
    fetch_chain();
}

#[test]
fn error_a_fetch_that_could_not_place_a_file_records_the_whole_chain() {
    fetch_chain();
}

const UNMAPPED: &str = "albums/spring.jpg is under no mapped folder";

#[test]
fn a_path_that_could_not_be_placed_says_so_without_naming_a_fetch() {
    let error = Error::LocalPathNotSettled {
        cause: cause(UNMAPPED, "Fetch::UnmappedEntryPath(path_len=17)"),
    };

    assert_eq!(
        chain(&error),
        vec![
            "where on this device that file belongs was not settled".to_owned(),
            UNMAPPED.to_owned(),
        ],
    );
    assert_eq!(
        error.redacted(),
        "Device::LocalPathNotSettled: Fetch::UnmappedEntryPath(path_len=17)",
    );
}

#[test]
fn a_file_that_was_not_taken_in_says_so_without_naming_a_fetch() {
    let error = Error::FileNotTakenIn {
        cause: cause(UNMAPPED, "Fetch::UnmappedEntryPath(path_len=17)"),
    };

    assert_eq!(
        chain(&error),
        vec!["the file was not taken in".to_owned(), UNMAPPED.to_owned()],
    );
    assert_eq!(
        error.redacted(),
        "Device::FileNotTakenIn: Fetch::UnmappedEntryPath(path_len=17)",
    );
}

#[test]
fn a_read_of_a_mapped_folder_says_what_was_not_read_without_naming_a_fetch() {
    const FOLDED: &str = "albums/.COFFRET names .COFFRET, which a case-folding volume does not tell apart from this device's own folder";
    let error = Error::LocalFilesNotRead {
        cause: cause(FOLDED, "Fetch::FoldedReservedComponent(path_len=15)"),
    };

    assert_eq!(
        chain(&error),
        vec![
            "what this device has of its own there was not read".to_owned(),
            FOLDED.to_owned(),
        ],
    );
    assert_eq!(
        error.redacted(),
        "Device::LocalFilesNotRead: Fetch::FoldedReservedComponent(path_len=15)",
    );
}

#[test]
fn a_placed_file_that_did_not_open_says_so_without_naming_a_fetch() {
    const GONE: &str = "the Library no longer holds albums/spring.jpg";
    let error = Error::LocalFileNotOpened {
        cause: cause(GONE, "Fetch::EntryNotCurrent(path_len=17)"),
    };

    assert_eq!(
        chain(&error),
        vec![
            "what this device has for that Entry was not opened".to_owned(),
            GONE.to_owned(),
        ],
    );
    assert_eq!(
        error.redacted(),
        "Device::LocalFileNotOpened: Fetch::EntryNotCurrent(path_len=17)",
    );
}

#[test]
fn a_catalog_that_could_not_be_used_is_an_index_failure_whichever_question_met_it() {
    for verdict in [
        FetchVerdict::Fetch,
        FetchVerdict::LocalPathNotSettled,
        FetchVerdict::FileNotTakenIn,
        FetchVerdict::LocalFilesNotRead,
        FetchVerdict::LocalFileNotOpened,
    ] {
        let refused = FetchRefusal {
            cause: cause("the catalog is locked", "Index::Locked"),
            from_catalog: true,
        };
        let error = Error::index_or(refused, verdict);
        assert!(matches!(&error, Error::Index { cause } if cause.redacted == "Index::Locked"));
        assert_eq!(error.redacted(), "Device::Index: Index::Locked");
    }
}

#[test]
fn each_question_keeps_its_own_answer() {
    let refusal = || FetchRefusal {
        cause: cause(UNMAPPED, "Fetch::UnmappedEntryPath(path_len=17)"),
        from_catalog: false,
    };
    assert!(matches!(Error::from_fetch(refusal()), Error::Fetch { .. }));
    assert!(matches!(
        Error::local_path_not_settled(refusal()),
        Error::LocalPathNotSettled { .. }
    ));
    assert!(matches!(
        Error::file_not_taken_in(refusal()),
        Error::FileNotTakenIn { .. }
    ));
    assert!(matches!(
        Error::local_files_not_read(refusal()),
        Error::LocalFilesNotRead { .. }
    ));
    assert!(matches!(
        Error::local_file_not_opened(refusal()),
        Error::LocalFileNotOpened { .. }
    ));
}

#[test]
fn a_refused_descent_is_answered_as_what_stopped_it() {
    let blocked = Error::descent(DescentRefusal::Blocked {
        unplaceable: cause(UNMAPPED, "Fetch::UnmaterializablePath(path_len=17, descent=blocked)"),
    });
    assert_eq!(blocked.said(), "the file was not taken in");

    let io = Error::descent(DescentRefusal::Io(local(
        "renamed",
        "/home/someone/albums/spring.jpg",
        permission_denied(),
    )));
    assert_eq!(
        io.redacted(),
        "Device::Local: Local::Io(operation=renamed, kind=PermissionDenied)"
    );

    let refused = Error::descent(DescentRefusal::Refused(RefusedRoot {
        said: "/home/someone/albums is not the folder albums was mapped to".to_owned(),
        redacted: "MarkerMismatch".to_owned(),
        malformed_marker: None,
    }));
    assert_eq!(refused.redacted(), "Device::RootRefused: MarkerMismatch");
}

fn local_refusal() {
    let error = Error::Local(local(
        "renamed",
        "/home/someone/albums/spring.jpg",
        permission_denied(),
    ));

    assert!(
        error.said().contains("/home/someone/albums/spring.jpg"),
        "{}",
        error.said(),
    );
    assert_eq!(
        error.redacted(),
        "Device::Local: Local::Io(operation=renamed, kind=PermissionDenied)",
    );

    let answered = permission_denied();
    assert!(
        !error.said().contains(&answered),
        "the cause belongs under this line and not inside it: {}",
        error.said(),
    );
    assert_eq!(
        error.source().map(link_said),
        Some(answered),
        "the cause is still reachable",
    );
}

#[test]
fn tests_a_local_refusal_names_the_file_for_a_person_and_never_for_the_log() {
    local_refusal();
}

#[test]
fn error_a_local_refusal_names_the_file_for_a_person_and_never_for_the_log() {
    local_refusal();
}

fn nested_creation_failure() {
    const LIBRARY: &str = "Family Tax Records";
    const PRIVATE_PATH: &str =
        "/Users/alice/Library/Application Support/coffret/libraries/Family Tax Records.partial";
    let error = Error::LibraryNotCreated {
        name: LIBRARY.to_owned(),
        step: CreationStep::Publish,
        orphan_folder: None,
        cause: Box::new(Error::Local(local(
            "renamed",
            PRIVATE_PATH,
            format!("rename of {PRIVATE_PATH} was denied"),
        ))),
    };

    let rendered = error.redacted();
    assert_eq!(
        rendered,
        "Device::LibraryNotCreated(step=Publish, orphan_folder=false): \
         Device::Local: Local::Io(operation=renamed, kind=PermissionDenied)"
    );
    assert!(!rendered.contains(LIBRARY), "{rendered}");
    assert!(!rendered.contains(PRIVATE_PATH), "{rendered}");
    assert!(error.said().contains(LIBRARY), "{}", error.said());
}

#[test]
fn tests_a_nested_creation_failure_keeps_no_device_local_library_name() {
    nested_creation_failure();
}

#[test]
fn error_a_nested_creation_failure_keeps_no_device_local_library_name() {
    nested_creation_failure();
}

#[test]
fn a_creation_that_stopped_after_a_folder_was_made_names_the_folder() {
    let error = Error::LibraryNotCreated {
        name: "holiday-photos".to_owned(),
        step: CreationStep::Index,
        orphan_folder: Some("coffret-0123456789abcdef".to_owned()),
        cause: Box::new(Error::NoStateDirectory),
    };
    assert_eq!(
        error.said(),
        "the Library \"holiday-photos\" was not created: creating the catalog failed; the \
         folder \"coffret-0123456789abcdef\" was created on Drive first and is still there"
    );
    assert_eq!(
        error.redacted(),
        "Device::LibraryNotCreated(step=Index, orphan_folder=true): Device::NoStateDirectory"
    );
    assert_eq!(
        chain(&error),
        vec![
            error.said(),
            "neither COFFRET_STATE_DIR, XDG_STATE_HOME, nor HOME is set, so there is nowhere to \
             keep Libraries"
                .to_owned(),
        ]
    );
}

fn sent_no_secret() -> Error {
    Error::Drive {
        cause: DriveCause {
            cause: cause(
                "the token endpoint refused the code exchange (401): {\"error\":\"invalid_client\"}",
                "Drive::CodeExchangeWithoutSecret(status=401)",
            ),
            exchange_without_client_secret: true,
        },
    }
}

#[test]
fn a_creation_refused_at_the_exchange_without_a_secret_is_seen_through_its_wrappers() {
    let created = Error::LibraryNotCreated {
        name: "holiday-photos".to_owned(),
        step: CreationStep::Authorization,
        orphan_folder: None,
        cause: Box::new(sent_no_secret()),
    };
    assert!(created.is_exchange_without_client_secret(), "{}", created.said());

    let joined = Error::LibraryNotJoined {
        name: "holiday-photos".to_owned(),
        step: CreationStep::Authorization,
        cause: Box::new(sent_no_secret()),
    };
    assert!(joined.is_exchange_without_client_secret(), "{}", joined.said());
}

#[test]
fn a_creation_refused_for_another_reason_says_nothing_about_a_secret() {
    let refused = Error::LibraryNotCreated {
        name: "holiday-photos".to_owned(),
        step: CreationStep::Authorization,
        orphan_folder: None,
        cause: Box::new(Error::Drive {
            cause: DriveCause {
                cause: cause(
                    "the token endpoint refused (401): {\"error\":\"invalid_grant\"}",
                    "Drive::TokenEndpoint(status=401)",
                ),
                exchange_without_client_secret: false,
            },
        }),
    };
    assert!(!refused.is_exchange_without_client_secret(), "{}", refused.said());
}

fn prefix_said_once() {
    let error = Error::MalformedMappingPrefix {
        prefix: "albums/".to_owned(),
        cause: Some(cause(
            "\"albums/\" is not an Entry Path: it ends with a separator",
            "Model::MalformedEntryPath(defect=TrailingSeparator)",
        )),
    };

    assert_eq!(error.said(), "\"albums/\" cannot be mapped");
    assert_eq!(
        error.source().map(link_said).as_deref(),
        Some("\"albums/\" is not an Entry Path: it ends with a separator"),
    );
}

#[test]
fn tests_a_prefix_that_is_no_entry_path_says_the_reason_once() {
    prefix_said_once();
}

#[test]
fn error_a_prefix_that_is_no_entry_path_says_the_reason_once() {
    prefix_said_once();
}

fn marker_refusals() {
    const ROOT: &str = "/home/someone/Pictures/Holidays";
    const FOLDED: &str = ".COFFRET";
    let unavailable = getrandom::Error::UNSUPPORTED;

    let refusals = [
        (
            Error::ManagementAreaNotADirectory {
                root: ROOT.to_owned(),
            },
            "Device::ManagementAreaNotADirectory".to_owned(),
        ),
        (
            Error::ManagementAreaIncomplete {
                root: ROOT.to_owned(),
            },
            "Device::ManagementAreaIncomplete".to_owned(),
        ),
        (
            Error::ManagementAreaFolded {
                root: ROOT.to_owned(),
                name: FOLDED.to_owned(),
            },
            "Device::ManagementAreaFolded".to_owned(),
        ),
        (
            Error::MarkerNotARegularFile {
                root: ROOT.to_owned(),
            },
            "Device::MarkerNotARegularFile".to_owned(),
        ),
        (
            marker_identity(ROOT, b"not an identity").expect_err("that content names no identity"),
            "Device::MarkerMalformed(defect=not an identity)".to_owned(),
        ),
        (
            Error::RootMarkerNotDrawn {
                root: ROOT.to_owned(),
                cause: cause(
                    &format!("could not draw random bytes: {unavailable}"),
                    &format!("Format: could not draw random bytes: {unavailable}"),
                ),
            },
            format!("Device::RootMarkerNotDrawn: Format: could not draw random bytes: {unavailable}"),
        ),
        (
            Error::RootRefused(RefusedRoot {
                said: format!(
                    "{ROOT} is not the folder the mapping of \"albums\" was recorded against"
                ),
                redacted: "MarkerMismatch".to_owned(),
                malformed_marker: None,
            }),
            "Device::RootRefused: MarkerMismatch".to_owned(),
        ),
    ];

    for (error, rendered) in refusals {
        let said = error.said();
        assert!(
            said.contains(ROOT),
            "the person is told which folder it is about: {said}"
        );
        assert_eq!(error.redacted(), rendered);
        assert!(
            !error.redacted().contains(ROOT),
            "and the event carries no part of it: {}",
            error.redacted()
        );
        assert!(
            !error.redacted().contains(FOLDED),
            "nor any name standing in it: {}",
            error.redacted()
        );
    }
}

#[test]
fn tests_the_marker_refusals_name_the_root_for_a_person_and_never_for_the_log() {
    marker_refusals();
}

#[test]
fn error_the_marker_refusals_name_the_root_for_a_person_and_never_for_the_log() {
    marker_refusals();
}

#[test]
fn a_root_that_could_not_be_asked_about_names_what_refused_and_never_the_folder() {
    const ROOT: &str = "/home/someone/Pictures/Holidays";

    let refused = |operation: &str, path: String| Error::RootUnvouched {
        local_root: ROOT.to_owned(),
        cause: local(operation, &path, permission_denied()),
    };

    let area = refused("stated", format!("{ROOT}/{MANAGEMENT_AREA}"));
    let said = area.said();
    assert!(
        said.contains(ROOT),
        "the person is told which folder it is about: {said}",
    );
    assert!(
        said.contains(&format!("{MANAGEMENT_AREA} in it could not be stated")),
        "the folder holding the marker is what refused, and it is what is named: {said}",
    );
    assert!(
        !said.contains(&format!("{MANAGEMENT_AREA}/{MARKER_FILE}")),
        "nothing was asked of the marker itself here: {said}",
    );

    let marker = refused("read", format!("{ROOT}/{MANAGEMENT_AREA}/{MARKER_FILE}"));
    assert!(
        marker
            .said()
            .contains(&format!("{MANAGEMENT_AREA}/{MARKER_FILE} in it could not be read")),
        "and the marker where that is what refused: {}",
        marker.said(),
    );

    assert_eq!(
        marker.redacted(),
        "Device::RootUnvouched: Local::Io(operation=read, kind=PermissionDenied)",
    );
    assert!(
        !marker.redacted().contains(ROOT),
        "the event carries no part of it: {}",
        marker.redacted(),
    );
}

#[test]
fn the_account_refusals_name_the_account_for_a_person_and_never_for_the_log() {
    const ACCOUNT: &str = "family_photos";
    const LIBRARY: &str = "Summer 2026";
    let mismatch = || ClientMismatch {
        library: LIBRARY.to_owned(),
        library_client: "one.apps.googleusercontent.com".to_owned(),
        account: ACCOUNT.to_owned(),
        account_client: "two.apps.googleusercontent.com".to_owned(),
    };
    let cases = [
        (
            Error::InvalidAccountName {
                name: "family/photos".to_owned(),
            },
            "\"family/photos\" cannot name an account: an account name is 1 to 64 characters, \
             each an ASCII letter, a digit, '-' or '_'",
            "Device::InvalidAccountName",
        ),
        (
            Error::AccountNotOpened {
                account: ACCOUNT.to_owned(),
                library: LIBRARY.to_owned(),
            },
            "the account \"family_photos\" opens only through a Library that references it, \
             and the Passphrase given does not open one; the Passphrase of the Library \
             \"Summer 2026\" does",
            "Device::AccountNotOpened",
        ),
        (
            Error::NoSuchAccount {
                account: ACCOUNT.to_owned(),
            },
            "no account \"family_photos\" is on this device",
            "Device::NoSuchAccount",
        ),
        (
            Error::AccountFixed {
                library: LIBRARY.to_owned(),
                account: ACCOUNT.to_owned(),
                requested: "work".to_owned(),
            },
            "the Library \"Summer 2026\" references the account \"family_photos\", not \
             \"work\", and the account a Library references cannot be changed yet; run \
             `coffret authorize --library Summer 2026` to renew that account's grant",
            "Device::AccountFixed",
        ),
        (
            Error::UnreadableAccountEnvelope {
                library: LIBRARY.to_owned(),
                account: ACCOUNT.to_owned(),
                cause: None,
            },
            "the envelope that opens the account \"family_photos\" for the Library \
             \"Summer 2026\" is missing; nothing was renewed and no consent was asked for",
            "Device::UnreadableAccountEnvelope(missing)",
        ),
        (
            Error::ClientMismatch(Box::new(mismatch())),
            "the Library \"Summer 2026\" names the OAuth client \
             \"one.apps.googleusercontent.com\" and the account \"family_photos\" names \
             \"two.apps.googleusercontent.com\"; an account's grant is used only through the \
             client it was consented to; give --account a new name to consent through the \
             Library's client as another account",
            "Device::ClientMismatch",
        ),
        (
            Error::UnreadableAccountEnvelope {
                library: LIBRARY.to_owned(),
                account: ACCOUNT.to_owned(),
                cause: Some(cause(
                    "an account-cache key envelope is 79 bytes long, not 15",
                    "Format: an account-cache key envelope is 79 bytes long, not 15",
                )),
            },
            "the envelope that opens the account \"family_photos\" for the Library \
             \"Summer 2026\" could not be read; nothing was renewed and no consent was asked for",
            "Device::UnreadableAccountEnvelope: Format: an account-cache key envelope is 79 bytes \
             long, not 15",
        ),
        (
            Error::NoAccountReachesFolder,
            "none of the accounts this device holds reaches that folder, and a new account needs \
             a name while this device holds any: give --account with a name for the account the \
             folder is in",
            "Device::NoAccountReachesFolder",
        ),
        (
            Error::PromotionNeedsName {
                library: LIBRARY.to_owned(),
                account: ACCOUNT.to_owned(),
                obstacle: PromotionObstacle::ClientDiffers(Box::new(mismatch())),
            },
            "the Library \"Summer 2026\" keeps a grant of its own from an earlier build, and the \
             account \"family_photos\" this device already holds cannot take it in; name an \
             account for it with `coffret authorize --library Summer 2026 --account NAME`",
            "Device::PromotionNeedsName(client-differs)",
        ),
        (
            Error::PromotionNeedsName {
                library: LIBRARY.to_owned(),
                account: ACCOUNT.to_owned(),
                obstacle: PromotionObstacle::NotOpened,
            },
            "the Library \"Summer 2026\" keeps a grant of its own from an earlier build, and the \
             account \"family_photos\" this device already holds cannot take it in; name an \
             account for it with `coffret authorize --library Summer 2026 --account NAME`",
            "Device::PromotionNeedsName(not-opened)",
        ),
        (
            Error::PromotionNeedsName {
                library: LIBRARY.to_owned(),
                account: ACCOUNT.to_owned(),
                obstacle: PromotionObstacle::FolderNotReached,
            },
            "the Library \"Summer 2026\" keeps a grant of its own from an earlier build, and the \
             account \"family_photos\" this device already holds cannot take it in; name an \
             account for it with `coffret authorize --library Summer 2026 --account NAME`",
            "Device::PromotionNeedsName(folder-not-reached)",
        ),
        (
            Error::AccountNameRequired { held: 3 },
            "this device holds 3 accounts, so which one the Library uses has to be named: give \
             --account with the name of one of them, or a new name to consent as another",
            "Device::AccountNameRequired(held=3)",
        ),
    ];
    for (error, said, recorded) in cases {
        assert_eq!(error.said(), said);
        assert_eq!(error.redacted(), recorded);
        for private in [ACCOUNT, LIBRARY, "family/photos", "googleusercontent"] {
            assert!(
                !error.redacted().contains(private),
                "{private:?} reached {}",
                error.redacted()
            );
        }
    }
}

#[test]
fn a_settings_version_is_said_in_decimal() {
    let error = Error::UnsupportedSettingsVersion {
        path: "/state/coffret/libraries/alpha/settings.json".to_owned(),
        version: 2,
        expected: 1,
    };
    assert_eq!(
        error.said(),
        "the settings at /state/coffret/libraries/alpha/settings.json are version 2, and this \
         build reads version 1"
    );
    assert_eq!(
        error.redacted(),
        "Device::UnsupportedSettingsVersion(version=2, expected=1)"
    );
    assert!(error.source().is_none());
}

#[test]
fn a_local_refusal_is_built_from_what_the_system_said() {
    let refused = LocalRefusal::new(
        LocalOperation::Renaming,
        "/home/someone/albums/spring.jpg",
        "PermissionDenied",
        "permission denied",
    );
    assert_eq!(refused.operation, "renamed");
    assert_eq!(refused.path, "/home/someone/albums/spring.jpg");
    assert_eq!(refused.redacted, "Local::Io(operation=renamed, kind=PermissionDenied)");
    assert_eq!(refused.cause.said, "permission denied");
    assert_eq!(refused.cause.redacted, "PermissionDenied");
    for (operation, word) in [
        (LocalOperation::Stating, "stated"),
        (LocalOperation::Creating, "created"),
        (LocalOperation::Reading, "read"),
        (LocalOperation::Writing, "written"),
        (LocalOperation::Flushing, "flushed"),
        (LocalOperation::Renaming, "renamed"),
    ] {
        assert_eq!(operation.word(), word);
    }
}

#[test]
fn a_step_below_a_vouched_for_root_names_no_mapping() {
    let blocked = Error::below_root(BelowRootRefusal::Blocked {
        unplaceable: cause(UNMAPPED, "Fetch::UnmaterializablePath(path_len=17, descent=blocked)"),
    });
    assert!(matches!(&blocked, Error::FileNotTakenIn { cause } if cause.said == UNMAPPED));
    let io = Error::below_root(BelowRootRefusal::Io(local(
        "written",
        "/home/someone/albums/spring.jpg",
        permission_denied(),
    )));
    assert!(matches!(&io, Error::Local(refused) if refused.operation == "written"));
}

#[test]
fn a_malformed_marker_reaches_a_caller_as_one_sentence_per_layer() {
    const ROOT: &str = "/home/someone/Pictures/Holidays";
    let error = marker_identity(ROOT, b"not an identity").expect_err("that content names no identity");
    assert!(matches!(&error, Error::MarkerMalformed { .. }));

    assert_eq!(
        chain(&error),
        vec![
            format!(
                "{MANAGEMENT_AREA}/{MARKER_FILE} in {ROOT} names no identity; nothing was \
                 written and nothing was recorded, and a new identity asked for replaces \
                 one rather than repairing this"
            ),
            "a marker's content is the spelling of an identity and this is not".to_owned(),
            "not the 16 lowercase hexadecimal characters a root's identity is spelled as"
                .to_owned(),
            "expected 16 hex characters, found 15".to_owned(),
        ],
    );
}
