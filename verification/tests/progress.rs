use mc_link::progress::{format_bytes, should_create_new_bar, ProgressStage, ProgressUpdate};

#[test]
fn test_progress_is_complete() {
    let progress = ProgressUpdate::new(ProgressStage::Completed, 50, 100);
    assert!(progress.is_complete());

    let progress = ProgressUpdate::new(ProgressStage::Downloading, 100, 100);
    assert!(progress.is_complete());

    let progress = ProgressUpdate::new(ProgressStage::Downloading, 50, 100);
    assert!(!progress.is_complete());
}

#[test]
fn progress_test_format_bytes() {
    assert_eq!(format_bytes(0), "0 B");
    assert_eq!(format_bytes(512), "512 B");
    assert_eq!(format_bytes(1024), "1.0 KB");
    assert_eq!(format_bytes(1536), "1.5 KB");
    assert_eq!(format_bytes(1024 * 1024), "1.0 MB");
    assert_eq!(format_bytes(1024 * 1024 * 1024), "1.0 GB");
}

#[test]
fn test_should_create_new_bar() {
    let update = ProgressUpdate::new(ProgressStage::Connecting, 0, 100);
    assert!(should_create_new_bar(&update));

    let update = ProgressUpdate::new(ProgressStage::CheckingCache, 50, 100);
    assert!(!should_create_new_bar(&update));

    let update = ProgressUpdate::new(ProgressStage::Downloading, 10, 100);
    assert!(should_create_new_bar(&update));
}

#[test]
fn updates_carry_what_they_were_given() {
    let update =
        ProgressUpdate::with_message(ProgressStage::Downloading, 25, 100, "mod-file.jar".to_string());
    assert_eq!(update.message.as_deref(), Some("mod-file.jar"));
    assert_eq!(update.throughput, None);
    let update = ProgressUpdate::with_throughput(ProgressStage::Downloading, 50, 100, 1024);
    assert_eq!(update.throughput, Some(1024));
    assert_eq!(update.message, None);
    assert_eq!(ProgressStage::Listing.label(), "Listing files");
    assert_eq!(ProgressStage::Completed.label(), "Completed");
}

#[test]
fn test_progress_display() {
    let progress = ProgressUpdate::new(ProgressStage::Downloading, 50, 100);
    assert_eq!(progress.to_text(), "Downloading: 50/100 (50.0%)");

    let progress = ProgressUpdate::with_message(
        ProgressStage::Downloading,
        25,
        100,
        "mod-file.jar".to_string(),
    );
    assert_eq!(progress.to_text(), "Downloading: 25/100 (25.0%) - mod-file.jar");

    let progress = ProgressUpdate::with_throughput(ProgressStage::Downloading, 50, 100, 1024);
    assert_eq!(progress.to_text(), "Downloading: 50/100 (50.0%) (1.0 KB/s)");
}

#[test]
fn reports_with_everything_show_everything() {
    let mut progress = ProgressUpdate::with_message(
        ProgressStage::Analyzing,
        1,
        3,
        "a.jar".to_string(),
    );
    progress.throughput = Some(1536);
    assert_eq!(progress.to_text(), "Analyzing: 1/3 (33.3%) - a.jar (1.5 KB/s)");
    let nothing = ProgressUpdate::new(ProgressStage::Connecting, 0, 0);
    assert_eq!(nothing.to_text(), "Connecting: 0/0 (0.0%)");
    let over = ProgressUpdate::new(ProgressStage::Listing, 3, 2);
    assert_eq!(over.to_text(), "Listing files: 3/2 (150.0%)");
    let tie = ProgressUpdate::new(ProgressStage::Listing, 1, 2000);
    assert_eq!(tie.to_text(), "Listing files: 1/2000 (0.1%)");
}
