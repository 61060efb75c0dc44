use bootstrap_sync::engine::{Orchestrator, Phase};
use bootstrap_sync::plan::plan_update;
use bootstrap_sync::progress::{AbortCause, DownloadCoordinator, DownloadState, ProgressEvent};
use bootstrap_sync::view::{ProgressView, ViewError};
use bootstrap_sync::digest::hash_content;
use bootstrap_sync::{FileInfo, HashAlgorithm, Info};

fn entry(path: &str, hash: &str) -> FileInfo {
    FileInfo { path: path.to_string(), hash: hash.to_string() }
}

fn two_file_manifest(b_hash: &str) -> Info {
    Info {
        base_url: "http://localhost:8000/files/".to_string(),
        algorithm: "sha256".to_string(),
        files: vec![entry("a.txt", "H1"), entry("b.txt", b_hash)],
        ignored_files: vec![],
    }
}

/// Drives the phases up to the download phase and returns the orchestrator.
fn start() -> Orchestrator {
    let mut o = Orchestrator::new();
    for _ in 0..4 {
        assert!(o.advance(Ok(())).is_empty());
    }
    assert_eq!(o.phase(), Phase::Downloading);
    o
}

#[test]
fn run_fetches_missing_and_cleans_up() {
    let content = vec![7u8; 20];
    let h2 = hash_content(HashAlgorithm::Sha256, &content);
    let info = two_file_manifest(&h2);
    let local = vec![entry("a.txt", "H1"), entry("c.txt", "H3")];
    let plan = plan_update(&info, &local);
    assert_eq!(plan.to_delete, vec!["c.txt".to_string()]);

    let mut o = start();
    let mut events = Vec::new();
    let mut c = DownloadCoordinator::new(plan.to_download);
    assert_eq!(c.len(), 1);
    events.push(c.register(0, 20));
    events.push(c.all_registered().unwrap());
    assert!(c.all_registered().is_none());
    events.push(c.receive(0, 20).unwrap());
    let computed = hash_content(HashAlgorithm::Sha256, &content);
    assert_eq!(c.finish(0, &computed), Ok(()));
    assert!(c.is_complete());
    events.extend(o.advance(Ok(())));
    assert_eq!(o.phase(), Phase::CleaningUp);
    events.extend(o.advance(Ok(())));
    assert!(o.finished());
    assert_eq!(
        events,
        vec![
            ProgressEvent::FileRegistered(0, 20),
            ProgressEvent::AllRegistered,
            ProgressEvent::FileProgress(0, 20),
            ProgressEvent::CleanupComplete,
            ProgressEvent::UpdateComplete,
        ]
    );
}

#[test]
fn transfer_cut_short_aborts() {
    let info = two_file_manifest("H2");
    let local = vec![entry("a.txt", "H1"), entry("c.txt", "H3")];
    let plan = plan_update(&info, &local);
    let mut o = start();
    let mut c = DownloadCoordinator::new(plan.to_download);
    c.register(0, 20);
    c.all_registered();
    assert_eq!(c.receive(0, 5), Ok(ProgressEvent::FileProgress(0, 5)));
    let computed = "whatever".to_string();
    let r = c.finish(0, &computed);
    assert_eq!(r, Err(AbortCause::NetworkError));
    assert!(!c.is_complete());
    let events = o.advance(Err(AbortCause::NetworkError));
    assert_eq!(events, vec![ProgressEvent::Aborted(AbortCause::NetworkError)]);
    assert_eq!(o.phase(), Phase::Aborted);
    assert!(o.finished());
    assert!(!events.contains(&ProgressEvent::CleanupComplete));
}

#[test]
fn hash_mismatch_aborts() {
    let info = two_file_manifest("H2");
    let local = vec![entry("a.txt", "H1")];
    let plan = plan_update(&info, &local);
    let mut o = start();
    let mut c = DownloadCoordinator::new(plan.to_download);
    c.register(0, 20);
    c.all_registered();
    c.receive(0, 20).unwrap();
    let computed = hash_content(HashAlgorithm::Sha256, &[1u8; 20]);
    assert_eq!(c.finish(0, &computed), Err(AbortCause::HashMismatch));
    assert!(!c.is_complete());
    let events = o.advance(Err(AbortCause::HashMismatch));
    assert_eq!(events, vec![ProgressEvent::Aborted(AbortCause::HashMismatch)]);
}

#[test]
fn bytes_beyond_declared_size_are_refused() {
    let mut c = DownloadCoordinator::new(vec![entry("x", "h")]);
    c.register(0, 10);
    c.all_registered();
    assert_eq!(c.receive(0, 6), Ok(ProgressEvent::FileProgress(0, 6)));
    assert_eq!(c.receive(0, 5), Err(AbortCause::NetworkError));
    assert_eq!(c.receive(0, 4), Ok(ProgressEvent::FileProgress(0, 10)));
}

#[test]
fn all_registered_waits_for_every_size() {
    let mut c = DownloadCoordinator::new(vec![entry("x", "h"), entry("y", "k")]);
    assert!(!c.is_registered(0));
    c.register(1, 3);
    assert!(c.is_registered(1));
    assert!(c.all_registered().is_none());
    c.register(0, 4);
    assert_eq!(c.all_registered(), Some(ProgressEvent::AllRegistered));
}

#[test]
fn conservation_of_bytes() {
    let mut c = DownloadCoordinator::new(vec![entry("x", "h"), entry("y", "k")]);
    let mut view = ProgressView::new();
    view.apply(c.register(0, 10)).unwrap();
    view.apply(c.register(1, 5)).unwrap();
    view.apply(c.all_registered().unwrap()).unwrap();
    assert_eq!(view.done_sum(), 0);
    assert_eq!(view.total_sum(), 15);
    view.apply(c.receive(0, 4).unwrap()).unwrap();
    view.apply(c.receive(1, 5).unwrap()).unwrap();
    view.apply(c.receive(0, 6).unwrap()).unwrap();
    assert_eq!(c.finish(0, &"h".to_string()), Ok(()));
    assert_eq!(c.finish(1, &"k".to_string()), Ok(()));
    assert!(c.is_complete());
    assert_eq!(view.done_sum(), view.total_sum());
}

#[test]
fn synchronized_run_is_quiet() {
    let info = two_file_manifest("H2");
    let local = vec![entry("a.txt", "H1"), entry("b.txt", "H2")];
    let plan = plan_update(&info, &local);
    assert!(plan.is_empty());
    let mut o = start();
    let mut c = DownloadCoordinator::new(plan.to_download);
    assert_eq!(c.len(), 0);
    let mut events = vec![c.all_registered().unwrap()];
    assert!(c.is_complete());
    events.extend(o.advance(Ok(())));
    events.extend(o.advance(Ok(())));
    assert_eq!(
        events,
        vec![
            ProgressEvent::AllRegistered,
            ProgressEvent::CleanupComplete,
            ProgressEvent::UpdateComplete,
        ]
    );
}

#[test]
fn failure_in_any_phase_aborts() {
    let mut o = Orchestrator::new();
    o.advance(Ok(()));
    assert_eq!(o.phase(), Phase::FetchingManifest);
    let ev = o.advance(Err(AbortCause::ManifestParseError));
    assert_eq!(ev, vec![ProgressEvent::Aborted(AbortCause::ManifestParseError)]);
    assert_eq!(o.phase(), Phase::Aborted);

    let mut o = Orchestrator::new();
    o.advance(Ok(()));
    o.advance(Ok(()));
    assert_eq!(o.phase(), Phase::Scanning);
    let ev = o.advance(Err(AbortCause::FilesystemError));
    assert_eq!(ev, vec![ProgressEvent::Aborted(AbortCause::FilesystemError)]);

    let mut o = Orchestrator::new();
    o.advance(Ok(()));
    let ev = o.advance(Err(AbortCause::ConfigurationError));
    assert_eq!(ev, vec![ProgressEvent::Aborted(AbortCause::ConfigurationError)]);
}

#[test]
fn view_refuses_protocol_violations() {
    let mut view = ProgressView::new();
    assert_eq!(view.apply(ProgressEvent::FileProgress(3, 1)), Err(ViewError::UnknownTransfer));
    view.apply(ProgressEvent::FileRegistered(3, 10)).unwrap();
    assert_eq!(
        view.apply(ProgressEvent::FileRegistered(3, 10)),
        Err(ViewError::DuplicateTransfer)
    );
    assert_eq!(
        view.apply(ProgressEvent::FileProgress(3, 11)),
        Err(ViewError::ProgressBeyondSize)
    );
    assert!(!view.sizes_known);
    view.apply(ProgressEvent::AllRegistered).unwrap();
    assert!(view.sizes_known);
    view.apply(ProgressEvent::FileProgress(3, 10)).unwrap();
    assert_eq!(view.done_sum(), 10);
    assert!(!view.ended);
    view.apply(ProgressEvent::UpdateComplete).unwrap();
    assert!(view.ended);
}

#[test]
fn download_state_accessors() {
    let mut s = DownloadState::new(20);
    assert_eq!(s.total(), 20);
    assert_eq!(s.done(), 0);
    s.set_done(12);
    assert_eq!(s.done(), 12);
}

#[test]
fn largest_sizes() {
    let mut c = DownloadCoordinator::new(vec![entry("x", "h"), entry("y", "k")]);
    let mut view = ProgressView::new();
    view.apply(c.register(0, u64::MAX)).unwrap();
    view.apply(c.register(1, u64::MAX)).unwrap();
    view.apply(c.all_registered().unwrap()).unwrap();
    view.apply(c.receive(0, u64::MAX).unwrap()).unwrap();
    assert_eq!(c.receive(0, 1), Err(AbortCause::NetworkError));
    view.apply(c.receive(1, u64::MAX).unwrap()).unwrap();
    assert_eq!(view.total_sum(), 2 * (u64::MAX as u128));
    assert_eq!(view.done_sum(), view.total_sum());
}

#[test]
fn empty_file_transfer() {
    let h = hash_content(HashAlgorithm::Sha256, b"");
    let mut c = DownloadCoordinator::new(vec![entry("empty.txt", &h)]);
    c.register(0, 0);
    c.all_registered();
    assert_eq!(c.finish(0, &h), Ok(()));
    assert!(c.is_complete());
}
