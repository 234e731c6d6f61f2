use update_supervisor::progress::Progress;
use update_supervisor::supervisor::{Descriptor, Phase, Supervisor, UpdateError};

fn descriptor(version: &str, length: Option<u64>) -> Descriptor {
    Descriptor { version: version.to_owned(), length }
}

#[test]
fn different_version_triggers_download() {
    let mut s = Supervisor::new("2.0.0".to_owned());
    s.begin_check();
    assert_eq!(s.current_phase(), Phase::Checking);
    let started = s.on_check_ok(&descriptor("2.1.0", Some(1000)));
    assert!(started);
    assert_eq!(s.current_phase(), Phase::Downloading);
}

#[test]
fn downgrade_triggers_download() {
    let mut s = Supervisor::new("2.0.0".to_owned());
    s.begin_check();
    let started = s.on_check_ok(&descriptor("1.9.0", Some(1000)));
    assert!(started);
    assert_eq!(s.current_phase(), Phase::Downloading);
}

#[test]
fn equal_version_ends_normally() {
    let mut s = Supervisor::new("2.0.0".to_owned());
    s.begin_check();
    let started = s.on_check_ok(&descriptor("2.0.0", Some(1000)));
    assert!(!started);
    assert_eq!(s.current_phase(), Phase::UpToDate);
    assert_eq!(s.downloaded_bytes(), 0);
}

#[test]
fn chunked_download_accumulates_exactly() {
    let mut s = Supervisor::new("2.0.0".to_owned());
    s.begin_check();
    s.on_check_ok(&descriptor("2.1.0", Some(1000)));
    let mut running: u64 = 0;
    for _ in 0..10 {
        running = s.on_chunk(100);
        assert_eq!(s.current_phase(), Phase::Downloading);
    }
    assert_eq!(running, 1000);
    assert_eq!(s.downloaded_bytes(), 1000);
    s.on_download_complete();
    assert_eq!(s.current_phase(), Phase::Installing);
    assert_eq!(s.downloaded_bytes(), 1000);
}

#[test]
fn whole_transfer_in_one_call() {
    let mut s = Supervisor::new("2.0.0".to_owned());
    s.begin_check();
    s.on_check_ok(&descriptor("2.1.0", Some(1000)));
    let chunks: Vec<u64> = vec![100; 10];
    s.run_transfer(&chunks);
    assert_eq!(s.downloaded_bytes(), 1000);
    assert_eq!(s.current_phase(), Phase::Installing);
}

#[test]
fn failure_mid_download_never_installs() {
    let mut s = Supervisor::new("2.0.0".to_owned());
    s.begin_check();
    s.on_check_ok(&descriptor("2.1.0", Some(1000)));
    let running = s.on_chunk(400);
    assert_eq!(running, 400);
    s.on_download_failed();
    assert_eq!(s.current_phase(), Phase::Failed(UpdateError::Download));
}

#[test]
fn check_failure_aborts_task() {
    let mut s = Supervisor::new("2.0.0".to_owned());
    s.begin_check();
    s.on_check_failed();
    assert_eq!(s.current_phase(), Phase::Failed(UpdateError::VersionCheck));
}

#[test]
fn install_failure_leaves_application_untouched() {
    let mut s = Supervisor::new("2.0.0".to_owned());
    s.begin_check();
    s.on_check_ok(&descriptor("2.1.0", None));
    s.on_chunk(1000);
    s.on_download_complete();
    s.on_install_failed();
    assert_eq!(s.current_phase(), Phase::Failed(UpdateError::Install));
}

#[test]
fn successful_sequence_ends_in_restart() {
    let mut s = Supervisor::new("2.0.0".to_owned());
    s.begin_check();
    let started = s.on_check_ok(&descriptor("2.1.0", Some(300)));
    assert!(started);
    s.on_chunk(200);
    s.on_chunk(100);
    s.on_download_complete();
    assert_eq!(s.current_phase(), Phase::Installing);
    s.on_install_ok();
    assert_eq!(s.current_phase(), Phase::Restarting);
}

#[test]
fn error_messages_name_the_step() {
    assert_eq!(
        UpdateError::VersionCheck.message().as_str(),
        "version check failed"
    );
    assert_eq!(UpdateError::Download.message().as_str(), "download failed");
    assert_eq!(UpdateError::Install.message().as_str(), "install failed");
}

#[test]
fn progress_counter_tracks_chunks() {
    let mut p = Progress::new(Some(1000));
    assert_eq!(p.downloaded, 0);
    assert!(!p.complete);
    let r = p.on_chunk(250);
    assert_eq!(r, 250);
    let r = p.on_chunk(750);
    assert_eq!(r, 1000);
    p.mark_complete();
    assert!(p.complete);
    assert_eq!(p.downloaded, 1000);
    assert_eq!(p.total, Some(1000));
}

#[test]
fn progress_records_whole_transfer() {
    let mut p = Progress::new(None);
    let chunks: Vec<u64> = vec![100; 10];
    p.record_transfer(&chunks);
    assert_eq!(p.downloaded, 1000);
    assert!(p.complete);
}

#[test]
fn progress_counter_reaches_the_largest_total() {
    let mut p = Progress::new(Some(u64::MAX));
    let r = p.on_chunk(u64::MAX);
    assert_eq!(r, u64::MAX);
    assert_eq!(p.downloaded, u64::MAX);
}

#[test]
fn empty_transfer_completes_with_nothing_downloaded() {
    let mut p = Progress::new(Some(0));
    let chunks: Vec<u64> = Vec::new();
    p.record_transfer(&chunks);
    assert_eq!(p.downloaded, 0);
    assert!(p.complete);
}
