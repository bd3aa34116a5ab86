use bridge_core::audit::{
    count_porcelain_lines, Alert, ChurnLevel, DiskUsage, FileMetadata, GitStatus,
    RecommendedAction, SentryAudit, SentryState,
};

fn meta(size: u64, mtime: u64) -> FileMetadata {
    FileMetadata { size, mtime }
}

fn quiet_git() -> GitStatus {
    GitStatus {
        available: true,
        branch: "main".to_string(),
        clean: true,
        modified: 0,
        staged: 0,
        untracked: 0,
        last_commit: "abc1234".to_string(),
        commit_age: "2 hours ago".to_string(),
    }
}

fn half_disk() -> DiskUsage {
    DiskUsage {
        total_gb: 100,
        used_gb: 50,
        free_gb: 50,
        usage_percent: 50,
        workspace_bytes: 1_000_000,
    }
}

#[test]
fn analyze_changes_reports_created_modified_deleted() {
    let mut audit = SentryAudit::new();
    let previous = SentryState {
        timestamp: "then".to_string(),
        files: vec![
            ("a.rs".to_string(), meta(10, 1)),
            ("b.rs".to_string(), meta(20, 1)),
        ],
    };
    let current = vec![
        ("b.rs".to_string(), meta(25, 2)),
        ("c.rs".to_string(), meta(30, 2)),
    ];
    let report = audit.run(Some(previous), current, &quiet_git(), &half_disk());
    assert_eq!(report.changes.created, vec!["c.rs".to_string()]);
    assert_eq!(report.changes.modified, vec!["b.rs".to_string()]);
    assert_eq!(report.changes.deleted, vec!["a.rs".to_string()]);
    // +30 bytes created, -10 bytes deleted
    assert_eq!(report.changes.delta_bytes, 20);
    assert_eq!(report.changes.churn, 3);
    assert_eq!(report.churn_level, ChurnLevel::Low);
    assert!(!report.disk_warning);
    assert!(report.alerts.is_empty());
    assert!(report.actions.is_empty());
}

#[test]
fn first_run_without_previous_state_counts_everything_created() {
    let mut audit = SentryAudit::new();
    let current = vec![
        ("x.rs".to_string(), meta(5, 1)),
        ("y.rs".to_string(), meta(6, 1)),
    ];
    let report = audit.run(None, current, &quiet_git(), &half_disk());
    assert_eq!(report.changes.created.len(), 2);
    assert_eq!(report.changes.deleted.len(), 0);
    assert_eq!(report.changes.delta_bytes, 11);
}

#[test]
fn churn_levels_follow_the_thresholds() {
    let audit = SentryAudit::new();
    let mk = |churn: usize| bridge_core::audit::ChangeSummary {
        created: Vec::new(),
        modified: Vec::new(),
        deleted: Vec::new(),
        delta_bytes: 0,
        churn,
    };
    assert_eq!(audit.generate_report(mk(5), &quiet_git(), &half_disk()).churn_level,
        ChurnLevel::Low);
    assert_eq!(audit.generate_report(mk(6), &quiet_git(), &half_disk()).churn_level,
        ChurnLevel::Medium);
    assert_eq!(audit.generate_report(mk(21), &quiet_git(), &half_disk()).churn_level,
        ChurnLevel::High);
}

#[test]
fn alerts_and_actions_follow_the_rules() {
    let audit = SentryAudit::new();
    let changes = bridge_core::audit::ChangeSummary {
        created: Vec::new(),
        modified: Vec::new(),
        deleted: Vec::new(),
        delta_bytes: 0,
        churn: 51,
    };
    let mut git = quiet_git();
    git.clean = false;
    let mut disk = half_disk();
    disk.usage_percent = 81;
    let report = audit.generate_report(changes, &git, &disk);
    assert!(report.disk_warning);
    assert_eq!(report.alerts, vec![
        Alert::UncommittedChanges,
        Alert::DiskUsageHigh,
        Alert::HighChurn,
    ]);
    assert_eq!(report.actions, vec![
        RecommendedAction::CommitOrStash,
        RecommendedAction::ReviewDiskUsage,
    ]);
}

#[test]
fn disk_at_eighty_percent_is_not_yet_a_warning() {
    let audit = SentryAudit::new();
    let changes = bridge_core::audit::ChangeSummary {
        created: Vec::new(),
        modified: Vec::new(),
        deleted: Vec::new(),
        delta_bytes: 0,
        churn: 0,
    };
    let mut disk = half_disk();
    disk.usage_percent = 80;
    let report = audit.generate_report(changes, &quiet_git(), &disk);
    assert!(!report.disk_warning);
}

#[test]
fn save_current_state_carries_the_scan() {
    let mut audit = SentryAudit::new();
    audit.scan_filesystem(vec![("m.rs".to_string(), meta(1, 1))]);
    let state = audit.save_current_state("2026-10-12T00:00:00".to_string());
    assert_eq!(state.timestamp, "2026-10-12T00:00:00");
    assert_eq!(state.files.len(), 1);
    assert_eq!(state.files[0].0, "m.rs");
}

#[test]
fn porcelain_counts_match_git_markers() {
    let out = " M src/lib.rs\nM  src/api.rs\n?? notes.txt\n M src/pool.rs\n";
    assert_eq!(count_porcelain_lines(out, " M"), 2);
    assert_eq!(count_porcelain_lines(out, "M "), 1);
    assert_eq!(count_porcelain_lines(out, "??"), 1);
    assert_eq!(count_porcelain_lines("", " M"), 0);
}
