use coffret_device::error::LocalOperation;
use coffret_device::library_id::IdDefect;
use coffret_device::root_marker::{marker_content, marker_identity, MARKER_MAX_LEN};
use coffret_device::root_marker::{
    area_failure, area_path, marker_failure, marker_file_failure, marker_path, new_marker_name,
};
use coffret_device::error::said::MANAGEMENT_AREA;
use coffret_device::error::Error;
use coffret_device::root_marker::{
    after_create, after_enter, after_make, after_reenter, folds_to_management_area,
    is_management_area, marker_plan, marker_verdict, missing_marker, Answer, AreaStep,
    MarkerOpening, MarkerPlan, MarkerRecord, MarkerRequest, MarkerVerdict,
};

const ROOT: &str = "/home/someone/library";

fn standing(names: &[&str]) -> Vec<String> {
    names.iter().map(|name| (*name).to_owned()).collect()
}

#[test]
fn a_folder_that_folds_to_the_reserved_name_is_not_called_an_interrupted_registration() {
    let names = standing(&[".COFFRET"]);

    let refused = missing_marker(ROOT, Some(&names));
    let said = refused.said();
    assert!(
        matches!(&refused, Error::ManagementAreaFolded { name, .. } if name == ".COFFRET"),
        "the refusal must name the folder standing there, and was {refused:?}"
    );
    assert!(
        said.contains(".COFFRET"),
        "a person is told which folder it is about: {said}"
    );
    assert!(
        !said.contains("interrupted"),
        "and is never told an interrupted registration left their folder: {said}"
    );
    assert_eq!(refused.redacted(), "Device::ManagementAreaFolded");
}

#[test]
fn the_reserved_name_itself_is_still_an_interrupted_registration() {
    for listed in [&[MANAGEMENT_AREA][..], &[MANAGEMENT_AREA, ".COFFRET"][..]] {
        let names = standing(listed);

        let refused = missing_marker(ROOT, Some(&names));
        assert!(
            matches!(&refused, Error::ManagementAreaIncomplete { .. }),
            "with {listed:?} standing there the descent reached {MANAGEMENT_AREA}, \
             and was {refused:?}"
        );
        assert!(refused.said().contains("interrupted registration"));
    }
}

#[test]
fn a_root_that_no_longer_holds_either_name_keeps_the_older_sentence() {
    let names = standing(&["albums"]);

    assert!(matches!(
        missing_marker(ROOT, Some(&names)),
        Error::ManagementAreaIncomplete { .. }
    ));
}

#[test]
fn a_root_that_could_not_be_listed_keeps_the_older_sentence() {
    assert!(matches!(
        missing_marker(ROOT, None),
        Error::ManagementAreaIncomplete { root } if root == ROOT
    ));
}

#[test]
fn the_first_folded_name_is_the_one_named() {
    let names = standing(&["albums", ".Coffret", ".COFFRET"]);
    assert!(matches!(
        missing_marker(ROOT, Some(&names)),
        Error::ManagementAreaFolded { name, .. } if name == ".Coffret"
    ));
}

#[test]
fn only_a_difference_of_ascii_case_folds() {
    assert!(is_management_area(".coffret"));
    assert!(!is_management_area(".COFFRET"));
    assert!(folds_to_management_area(".COFFRET"));
    assert!(folds_to_management_area(".coffret"));
    assert!(folds_to_management_area(".CoFfReT"));
    assert!(!folds_to_management_area("coffret"));
    assert!(!folds_to_management_area(".coffret2"));
    assert!(!folds_to_management_area("_coffret"));
}

#[test]
fn entering_the_management_area_settles_whether_it_is_made() {
    assert_eq!(after_enter(Answer::Done), AreaStep::Found);
    assert_eq!(after_enter(Answer::NotFound), AreaStep::Make);
    assert_eq!(after_enter(Answer::Link), AreaStep::NotADirectory);
    assert_eq!(after_enter(Answer::NotADirectory), AreaStep::NotADirectory);
    assert_eq!(after_enter(Answer::Refused), AreaStep::Unstatable);
}

#[test]
fn a_management_area_made_by_another_registration_is_found_rather_than_made() {
    assert_eq!(after_make(Answer::Done), AreaStep::EnterMade);
    assert_eq!(after_make(Answer::AlreadyThere), AreaStep::EnterFound);
    assert_eq!(after_make(Answer::Refused), AreaStep::Uncreatable);

    assert_eq!(after_reenter(true, Answer::Done), AreaStep::Made);
    assert_eq!(after_reenter(false, Answer::Done), AreaStep::Found);
    assert_eq!(after_reenter(false, Answer::Link), AreaStep::NotADirectory);
    assert_eq!(after_reenter(false, Answer::NotADirectory), AreaStep::NotADirectory);
}

#[test]
fn a_marker_that_was_found_is_read_before_anything_is_decided() {
    assert_eq!(marker_plan(true, MarkerRequest::AdoptWhatIsThere), MarkerPlan::Write);
    assert_eq!(marker_plan(true, MarkerRequest::IssueANewIdentity), MarkerPlan::Write);
    assert_eq!(
        marker_plan(false, MarkerRequest::AdoptWhatIsThere),
        MarkerPlan::ReadAndAdopt
    );
    assert_eq!(
        marker_plan(false, MarkerRequest::IssueANewIdentity),
        MarkerPlan::ReadAndReplace
    );
}

#[test]
fn a_marker_that_is_a_symbolic_link_is_no_marker() {
    assert_eq!(marker_verdict(MarkerOpening::RegularFile), MarkerVerdict::ReadContent);
    assert_eq!(marker_verdict(MarkerOpening::OtherKind), MarkerVerdict::NotARegularFile);
    assert_eq!(
        marker_verdict(MarkerOpening::Refused(Answer::Link)),
        MarkerVerdict::NotARegularFile
    );
    assert_eq!(
        marker_verdict(MarkerOpening::Refused(Answer::NotFound)),
        MarkerVerdict::Missing
    );
    assert_eq!(
        marker_verdict(MarkerOpening::Refused(Answer::Refused)),
        MarkerVerdict::Unreadable
    );
}

#[test]
fn a_marker_created_in_between_is_adopted() {
    assert_eq!(after_create(Answer::Done), Some(MarkerRecord::Written));
    assert_eq!(after_create(Answer::AlreadyThere), Some(MarkerRecord::Adopted));
    assert_eq!(after_create(Answer::Refused), None);
}

#[test]
fn the_marker_stands_in_the_management_area_of_its_root() {
    assert_eq!(area_path(ROOT), "/home/someone/library/.coffret");
    assert_eq!(marker_path(ROOT), "/home/someone/library/.coffret/root");
    assert_eq!(area_path("/home/someone/"), "/home/someone/.coffret");
    assert_eq!(new_marker_name("0011223344556677"), "root.0011223344556677.new");
}

#[test]
fn each_stop_of_the_descent_is_answered_with_its_own_refusal() {
    assert!(matches!(
        area_failure(ROOT, AreaStep::NotADirectory, "NotADirectory", "not a directory"),
        Some(Error::ManagementAreaNotADirectory { root }) if root == ROOT
    ));
    let unstatable = area_failure(ROOT, AreaStep::Unstatable, "PermissionDenied", "permission denied")
        .expect("a refusal");
    assert_eq!(
        unstatable.said(),
        "/home/someone/library/.coffret could not be stated"
    );
    assert_eq!(
        unstatable.redacted(),
        "Device::Local: Local::Io(operation=stated, kind=PermissionDenied)"
    );
    let uncreatable = area_failure(ROOT, AreaStep::Uncreatable, "ReadOnlyFilesystem", "read-only")
        .expect("a refusal");
    assert_eq!(
        uncreatable.redacted(),
        "Device::Local: Local::Io(operation=created, kind=ReadOnlyFilesystem)"
    );
    for settled in [AreaStep::Made, AreaStep::Found, AreaStep::Make, AreaStep::EnterMade, AreaStep::EnterFound] {
        assert!(area_failure(ROOT, settled, "", "").is_none());
    }
}

#[test]
fn each_verdict_on_the_marker_is_answered_with_its_own_refusal() {
    assert!(marker_failure(ROOT, MarkerVerdict::ReadContent, "", "").is_none());
    assert!(matches!(
        marker_failure(ROOT, MarkerVerdict::Missing, "", ""),
        Some(Error::ManagementAreaIncomplete { root }) if root == ROOT
    ));
    assert!(matches!(
        marker_failure(ROOT, MarkerVerdict::NotARegularFile, "", ""),
        Some(Error::MarkerNotARegularFile { root }) if root == ROOT
    ));
    let unreadable = marker_failure(ROOT, MarkerVerdict::Unreadable, "PermissionDenied", "permission denied")
        .expect("a refusal");
    assert_eq!(unreadable.said(), "/home/someone/library/.coffret/root could not be read");

    let unflushed = marker_file_failure(ROOT, LocalOperation::Flushing, "StorageFull", "no space");
    assert_eq!(
        unflushed.redacted(),
        "Device::Local: Local::Io(operation=flushed, kind=StorageFull)"
    );
}

#[test]
fn a_marker_reads_as_the_identity_it_spells() {
    assert_eq!(marker_identity(ROOT, b"0011223344556677\n").expect("an identity"), "0011223344556677");
    assert_eq!(marker_identity(ROOT, b"0011223344556677").expect("an identity"), "0011223344556677");
    assert!(matches!(
        marker_identity(ROOT, b"00112233445566AA\n"),
        Err(Error::MarkerMalformed { root, defect: IdDefect::NotLowercaseHex { at: 14 } }) if root == ROOT
    ));
    assert!(matches!(
        marker_identity(ROOT, b""),
        Err(Error::MarkerMalformed { defect: IdDefect::Length { found: 0 }, .. })
    ));
    assert!(matches!(
        marker_identity(ROOT, b"0011223344556677\n\n"),
        Err(Error::MarkerMalformed { defect: IdDefect::Length { found: 17 }, .. })
    ));
    let enormous = vec![b'0'; MARKER_MAX_LEN + 1];
    assert!(marker_identity(ROOT, &enormous).is_err());

    let written = marker_content([0x01, 0x23, 0x45, 0x67, 0x89, 0xab, 0xcd, 0xef]);
    assert_eq!(written, b"0123456789abcdef\n".to_vec());
    assert_eq!(marker_identity(ROOT, &written).expect("what was written"), "0123456789abcdef");
}
