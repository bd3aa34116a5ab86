use bridge_core::system::{
    perform_cleanup, scan_cleanup_candidates, CleanupAction, CleanupError, ScannedEntry,
    CLEANUP_AGE_SECS, CLEANUP_SIZE_THRESHOLD,
};

fn entry(name: &str, size: u64, mtime: u64) -> ScannedEntry {
    ScannedEntry {
        name: name.to_string(),
        path: format!("/home/a2/.gemini/antigravity/brain/{}", name),
        size,
        mtime,
    }
}

#[test]
fn cleanup_decision_covers_every_case() {
    assert_eq!(
        perform_cleanup("/home/a2/.gemini/antigravity/brain/old", "gemini"),
        Ok(CleanupAction::DeletePath)
    );
    assert_eq!(
        perform_cleanup("/etc/passwd", "gemini"),
        Err(CleanupError::UnsafePath)
    );
    assert_eq!(
        perform_cleanup("/var/cache/pacman/pkg/", "system"),
        Ok(CleanupAction::CleanPacmanCache)
    );
    assert_eq!(
        perform_cleanup("/var/log/journal/", "system"),
        Ok(CleanupAction::VacuumJournal)
    );
    assert_eq!(
        perform_cleanup("/var/lib/", "system"),
        Err(CleanupError::UnsafeSystemPath)
    );
    assert_eq!(
        perform_cleanup("/anything", "other"),
        Err(CleanupError::UnknownCategory)
    );
}

#[test]
fn large_old_entries_become_candidates() {
    let now = 100 * 24 * 60 * 60;
    let old_enough = now - CLEANUP_AGE_SECS - 1;
    let scanned = vec![
        entry("big_old", CLEANUP_SIZE_THRESHOLD, old_enough),
        entry("too_small", CLEANUP_SIZE_THRESHOLD - 1, old_enough),
        entry("too_young", CLEANUP_SIZE_THRESHOLD, now - CLEANUP_AGE_SECS),
    ];
    let items = scan_cleanup_candidates(&scanned, now, None, None);
    assert_eq!(items.len(), 1);
    assert_eq!(items[0].id, "gemini_big_old");
    assert_eq!(items[0].name, "big_old");
    assert_eq!(items[0].path, "/home/a2/.gemini/antigravity/brain/big_old");
    assert_eq!(items[0].size, CLEANUP_SIZE_THRESHOLD);
    assert_eq!(items[0].category, "gemini");
}

#[test]
fn system_caches_are_offered_from_the_threshold_on() {
    let items = scan_cleanup_candidates(
        &Vec::new(),
        0,
        Some(CLEANUP_SIZE_THRESHOLD),
        Some(CLEANUP_SIZE_THRESHOLD - 1),
    );
    assert_eq!(items.len(), 1);
    assert_eq!(items[0].id, "system_pacman");
    assert_eq!(items[0].name, "Pacman Package Cache");
    assert_eq!(items[0].path, "/var/cache/pacman/pkg/");
    assert_eq!(items[0].category, "system");

    let items = scan_cleanup_candidates(&Vec::new(), 0, None, Some(CLEANUP_SIZE_THRESHOLD + 5));
    assert_eq!(items.len(), 1);
    assert_eq!(items[0].id, "system_journal");
    assert_eq!(items[0].name, "Systemd Journal Logs");
    assert_eq!(items[0].path, "/var/log/journal/");
    assert_eq!(items[0].size, CLEANUP_SIZE_THRESHOLD + 5);
}

#[test]
fn missing_directories_yield_no_candidates() {
    let items = scan_cleanup_candidates(&Vec::new(), 0, None, None);
    assert!(items.is_empty());
}
