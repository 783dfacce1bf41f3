use msgvault::downloads::{DownloadState, DownloadTracker};

#[test]
fn test_download_state_default() {
    let state = DownloadState::default();
    assert!(matches!(state, DownloadState::NotStarted));
}

#[test]
fn test_download_tracker_basic() {
    let mut tracker = DownloadTracker::new();

    // an untracked attachment reads as not started
    let state = tracker.get(1, 0);
    assert!(matches!(state, DownloadState::NotStarted));

    // mark as downloading, halfway
    tracker.set_downloading(1, 0, 50);
    let state = tracker.get(1, 0);
    assert!(state.is_downloading());
    assert_eq!(state.progress(), Some(50));

    // mark as complete
    tracker.set_complete(1, 0, "/tmp/test.pdf".to_string());
    let state = tracker.get(1, 0);
    assert!(state.is_complete());
    assert_eq!(state.path(), Some(&"/tmp/test.pdf".to_string()));
}

#[test]
fn test_download_tracker_failed() {
    let mut tracker = DownloadTracker::new();

    tracker.set_failed(1, 0, "Network error".to_string());
    let state = tracker.get(1, 0);
    assert!(state.is_failed());
    assert_eq!(state.error(), Some("Network error"));
}

#[test]
fn test_download_tracker_clear() {
    let mut tracker = DownloadTracker::new();

    tracker.set_downloading(1, 0, 50);
    tracker.set_downloading(1, 1, 30);
    tracker.set_downloading(2, 0, 70);

    // clear a single download
    tracker.clear(1, 0);
    assert!(matches!(tracker.get(1, 0), DownloadState::NotStarted));
    assert!(tracker.get(1, 1).is_downloading());

    // clear all downloads of one message
    tracker.clear_message(1);
    assert!(matches!(tracker.get(1, 1), DownloadState::NotStarted));
    assert!(tracker.get(2, 0).is_downloading());
}

#[test]
fn download_progress_is_clamped() {
    let mut tracker = DownloadTracker::new();
    tracker.set_downloading(7, 2, 250);
    assert_eq!(tracker.get(7, 2).progress(), Some(100));
}
