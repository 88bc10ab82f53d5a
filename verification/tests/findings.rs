use coffret_device::finding::{Finding, FindingReason, Reconciled, RootUnavailable};
use coffret_device::findings::{
    Declined, EntryFetch, FetchReport, Findings, FreezeReport, NotFrozen, SyncReport,
    SyncSurfaced, UnavailableRoot,
};

fn rendered(findings: &Findings) -> Vec<String> {
    findings.as_slice().iter().map(Finding::message).collect()
}

#[test]
fn a_sync_reports_what_it_left_alone_and_what_it_could_not_read() {
    let outcome = SyncReport {
        surfaced: vec![SyncSurfaced::DeletedLocally {
            path: "albums/gone.jpg".to_owned(),
        }],
        unavailable: vec![UnavailableRoot {
            prefix: None,
            local_root: "/mnt/photos".to_owned(),
            reason: RootUnavailable::Missing,
        }],
        reconciled: Vec::new(),
    };

    let findings = Findings::from_sync(&outcome);
    assert!(!findings.is_empty());
    assert!(findings.needs_attention());
    assert_eq!(findings.len(), 2);

    let rendered = rendered(&findings);
    assert_eq!(
        rendered[0],
        "surfaced albums/gone.jpg: this device had it and it is gone from disk"
    );
    assert_eq!(rendered[1], "unavailable root /mnt/photos: it is not there");
}

#[test]
fn a_run_that_left_nothing_alone_has_no_findings() {
    let outcome = FetchReport {
        surfaced: Vec::new(),
        locked: Vec::new(),
    };

    assert!(Findings::from_fetch(&outcome).is_empty());
}

#[test]
fn a_run_that_only_settled_a_leftover_batch_needs_no_attention() {
    let outcome = SyncReport {
        surfaced: Vec::new(),
        unavailable: Vec::new(),
        reconciled: vec![Reconciled::Completed {
            container_id: "09090909090909090909090909090909".to_owned(),
            entries: 1,
        }],
    };

    let findings = Findings::from_sync(&outcome);
    assert_eq!(findings.len(), 1);
    assert!(!findings.is_empty());
    assert!(!findings.needs_attention());
}

#[test]
fn a_fetch_reports_a_locked_container_as_well_as_its_entries() {
    let container_id = "07070707070707070707070707070707";
    let outcome = FetchReport {
        surfaced: vec![Declined::KeyLost {
            path: "albums/locked.jpg".to_owned(),
            container_id: container_id.to_owned(),
        }],
        locked: vec![container_id.to_owned()],
    };

    assert_eq!(
        rendered(&Findings::from_fetch(&outcome)),
        [
            "surfaced albums/locked.jpg: the Library records no key for the Container holding \
             it"
            .to_owned(),
            format!("locked container {container_id}"),
        ]
    );
}

#[test]
fn a_place_the_run_could_not_reach_is_a_finding_that_names_the_folder() {
    let outcome = FetchReport {
        surfaced: vec![Declined::UnreachablePlace {
            path: "link/authorized_keys".to_owned(),
            component: "/home/someone/mapped/link".to_owned(),
        }],
        locked: Vec::new(),
    };

    let findings = Findings::from_fetch(&outcome);
    assert!(findings.needs_attention());

    let rendered = rendered(&findings);
    assert_eq!(
        rendered[0],
        "surfaced link/authorized_keys: a folder on the way to it is not a folder of the \
         mapped folder — /home/someone/mapped/link"
    );
    assert_eq!(rendered.len(), 1, "the Entry that was placed is not one");
}

#[test]
fn one_entry_placed_reports_nothing() {
    assert!(Findings::from_entry_fetch(&EntryFetch::Placed).is_empty());
    assert!(Findings::from_entry_fetch(&EntryFetch::AlreadyPresent).is_empty());
    assert_eq!(
        Findings::from_entry_fetch(&EntryFetch::Surfaced(Declined::ForeignFile {
            path: "albums/theirs.jpg".to_owned(),
        }))
        .len(),
        1
    );
}

#[test]
fn a_freeze_reports_what_it_could_not_freeze_in_order() {
    let outcome = FreezeReport {
        surfaced: vec![
            NotFrozen::ModifiedInPack {
                path: "albums/edited.jpg".to_owned(),
            },
            NotFrozen::KeyLostInPack {
                path: "albums/locked.jpg".to_owned(),
            },
        ],
        unavailable: vec![UnavailableRoot {
            prefix: Some("albums".to_owned()),
            local_root: "/mnt/albums".to_owned(),
            reason: RootUnavailable::AnotherFilesystem,
        }],
    };

    let findings = Findings::from_freeze(&outcome);
    assert_eq!(findings.len(), 3);
    assert!(findings.needs_attention());
    assert_eq!(
        findings.as_slice()[0],
        Finding::Surfaced {
            path: "albums/edited.jpg".to_owned(),
            reason: FindingReason::ChangedInPack,
        }
    );
    assert_eq!(
        findings.as_slice()[1],
        Finding::Surfaced {
            path: "albums/locked.jpg".to_owned(),
            reason: FindingReason::KeyLost,
        }
    );
    assert_eq!(
        rendered(&findings)[2],
        "unavailable root /mnt/albums: it is empty and stands on another filesystem"
    );
}

#[test]
fn a_disposed_batch_is_said_as_disposed() {
    let outcome = SyncReport {
        surfaced: Vec::new(),
        unavailable: Vec::new(),
        reconciled: vec![Reconciled::Disposed {
            container_id: "0a0a".to_owned(),
        }],
    };
    assert_eq!(
        rendered(&Findings::from_sync(&outcome)),
        ["settled container 0a0a: nothing committed it, so what it left was disposed of".to_owned()]
    );
}
