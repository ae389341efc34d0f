use rules_minidock_tools::container_specs::blob_reference::{BlobReference, BlobReferenceType};
use rules_minidock_tools::container_specs::SpecificationType;
use rules_minidock_tools::registry::ops::{size_to_string, ActionsTaken, EnsureAction, EnsureEvent, EnsurePresent};

fn blob(size: u64) -> BlobReference {
    BlobReference {
        blob_reference_type: BlobReferenceType::LayerGz,
        specification_type: SpecificationType::Oci,
        size,
        digest: "sha256:abc".to_string(),
    }
}

#[test]
fn happy_path_is_already_present() {
    let mut m = EnsurePresent::new(&blob(7), true, true);
    assert_eq!(m.step(EnsureEvent::Begin), EnsureAction::CheckDestination);
    match m.step(EnsureEvent::Present(true)) {
        EnsureAction::Finish(a) => {
            assert_eq!(a.already_present, 1);
            assert_eq!(a.already_present_size, 7);
            assert_eq!(a.uploaded_from_local, 0);
        }
        other => panic!("unexpected {:?}", other),
    }
}

#[test]
fn mount_path_copies_from_source() {
    let mut m = EnsurePresent::new(&blob(7), true, true);
    m.step(EnsureEvent::Begin);
    assert_eq!(m.step(EnsureEvent::Present(false)), EnsureAction::CheckSource);
    assert_eq!(m.step(EnsureEvent::Present(true)), EnsureAction::TryMount);
    assert_eq!(m.step(EnsureEvent::Completed), EnsureAction::CheckDestination);
    match m.step(EnsureEvent::Present(true)) {
        EnsureAction::Finish(a) => {
            assert_eq!(a.copied_from_source_repository, 1);
            assert_eq!(a.uploaded_from_local, 0);
        }
        other => panic!("unexpected {:?}", other),
    }
}

#[test]
fn download_fallback_after_failed_mount() {
    let mut m = EnsurePresent::new(&blob(9), true, false);
    m.step(EnsureEvent::Begin);
    m.step(EnsureEvent::Present(false));
    assert_eq!(m.step(EnsureEvent::Present(true)), EnsureAction::TryMount);
    assert_eq!(m.step(EnsureEvent::Completed), EnsureAction::CheckDestination);
    assert_eq!(m.step(EnsureEvent::Present(false)), EnsureAction::CheckSource);
    assert_eq!(m.step(EnsureEvent::Present(true)), EnsureAction::CheckCache);
    assert_eq!(m.step(EnsureEvent::Present(false)), EnsureAction::Download);
    assert_eq!(m.step(EnsureEvent::Completed), EnsureAction::UploadFromCache);
    match m.step(EnsureEvent::Completed) {
        EnsureAction::Finish(a) => {
            assert_eq!(a.downloaded_from_source_repository, 1);
            assert_eq!(a.uploaded_data_from_source_repository, 1);
            assert_eq!(a.uploaded_data_from_source_repository_size, 9);
        }
        other => panic!("unexpected {:?}", other),
    }
}

#[test]
fn local_upload_and_exhausted_sources() {
    let mut m = EnsurePresent::new(&blob(3), false, true);
    m.step(EnsureEvent::Begin);
    assert_eq!(m.step(EnsureEvent::Present(false)), EnsureAction::UploadLocal);
    assert!(matches!(m.step(EnsureEvent::Completed), EnsureAction::Finish(a) if a.uploaded_from_local == 1));
    let mut n = EnsurePresent::new(&blob(3), false, false);
    n.step(EnsureEvent::Begin);
    assert_eq!(n.step(EnsureEvent::Present(false)), EnsureAction::BlobUnavailable);
    let mut u = EnsurePresent::new(&blob(3), false, false);
    assert_eq!(u.step(EnsureEvent::Completed), EnsureAction::Unexpected);
}

#[test]
fn tallies_merge_field_by_field() {
    let mut t = ActionsTaken::already_present(&blob(5));
    t.merge(&ActionsTaken::uploaded_data_from_source_repository(&blob(4), false));
    t.merge(&ActionsTaken::copied_from_source_repository(&blob(2)));
    t.merge(&ActionsTaken::uploaded_from_local(&blob(1)));
    assert_eq!((t.already_present, t.already_present_size), (1, 5));
    assert_eq!((t.uploaded_data_from_source_repository, t.downloaded_from_source_repository), (1, 0));
    assert_eq!(t.copied_from_source_repository_size, 2);
    assert_eq!(t.uploaded_from_local_size, 1);
    let mut big = ActionsTaken::default();
    big.already_present_size = u64::MAX;
    big.merge(&ActionsTaken::already_present(&blob(5)));
    assert_eq!(big.already_present_size, u64::MAX);
}

#[test]
fn sizes_read_as_megabytes_or_gigabytes() {
    assert_eq!(size_to_string(0), "0 MB");
    assert_eq!(size_to_string(5 * 1024 * 1024 + 7), "5 MB");
    assert_eq!(size_to_string(1024 * 1024 * 1024), "1 GB");
    assert_eq!(size_to_string(3 * 1024 * 1024 * 1024 / 2), "1.5 GB");
    assert_eq!(size_to_string(1024 * 1024 * 1024 + 1024 * 1024), "1.0009765625 GB");
}

#[test]
fn summary_lists_each_way() {
    let mut t = ActionsTaken::already_present(&blob(3 * 1024 * 1024));
    t.merge(&ActionsTaken::uploaded_from_local(&blob(2 * 1024 * 1024 * 1024)));
    let s = t.summary();
    let lines: Vec<&str> = s.lines().collect();
    assert_eq!(lines.len(), 5);
    assert_eq!(lines[0], "Already present on remote:                 1 entries, 3 MB");
    assert_eq!(lines[2], "Uploaded from local output state:          1 entries, 2 GB");
    assert_eq!(lines[4], "Uploaded data originally from source repo: 0 entries, 0 MB");
}
