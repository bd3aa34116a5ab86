//! The workspace audit's computational core: comparing two filesystem
//! snapshots, counting git porcelain status lines, and deriving the report's
//! summary levels, alerts, and recommended actions.
//!
//! Walking the filesystem, running git, reading the disk, and rendering the
//! report text all happen outside; this module works on the plain values
//! they produce.

use vstd::prelude::*;

use vstd::string::{StrSliceExecFns, StringExecFns};

use crate::text::{match_at, match_here, str_eq};

verus! {

/// Size and modification time (seconds) of one file.
#[derive(Debug, Clone, Copy, PartialEq, Eq, Structural)]
pub struct FileMetadata {
    pub size: u64,
    pub mtime: u64,
}

/// A persisted snapshot: when it was taken and the files it saw, keyed by
/// path relative to the workspace.
#[derive(Debug, Clone)]
pub struct SentryState {
    pub timestamp: String,
    pub files: Vec<(String, FileMetadata)>,
}

/// What `git status` and the disk probe reported, as plain values.
#[derive(Debug, Clone)]
pub struct GitStatus {
    pub available: bool,
    pub branch: String,
    pub clean: bool,
    pub modified: usize,
    pub staged: usize,
    pub untracked: usize,
    pub last_commit: String,
    pub commit_age: String,
}

/// Disk usage, with the percentage already rounded to whole percent.
#[derive(Debug, Clone, Copy, PartialEq, Eq, Structural)]
pub struct DiskUsage {
    pub total_gb: u64,
    pub used_gb: u64,
    pub free_gb: u64,
    pub usage_percent: u64,
    pub workspace_bytes: u64,
}

/// The differences between the previous and the current snapshot.
#[derive(Debug, Clone)]
pub struct ChangeSummary {
    pub created: Vec<String>,
    pub modified: Vec<String>,
    pub deleted: Vec<String>,
    pub delta_bytes: i64,
    pub churn: usize,
}

#[derive(Debug, Clone, Copy, PartialEq, Eq, Structural)]
pub enum ChurnLevel {
    High,
    Medium,
    Low,
}

#[derive(Debug, Clone, Copy, PartialEq, Eq, Structural)]
pub enum Alert {
    UncommittedChanges,
    DiskUsageHigh,
    HighChurn,
}

#[derive(Debug, Clone, Copy, PartialEq, Eq, Structural)]
pub enum RecommendedAction {
    CommitOrStash,
    ReviewDiskUsage,
}

/// The decisions of one audit report; the caller renders them as text.
#[derive(Debug, Clone)]
pub struct AuditReport {
    pub changes: ChangeSummary,
    pub churn_level: ChurnLevel,
    pub disk_warning: bool,
    pub alerts: Vec<Alert>,
    pub actions: Vec<RecommendedAction>,
}

pub type SnapEntry = (String, FileMetadata);

/// The paths of a snapshot, as character sequences.
pub open spec fn snap_keys(s: Seq<SnapEntry>) -> Seq<Seq<char>> {
    s.map_values(|e: SnapEntry| e.0@)
}

pub open spec fn has_key(s: Seq<SnapEntry>, k: Seq<char>) -> bool {
    snap_keys(s).contains(k)
}

/// The index of `k` in the snapshot; meaningful only when `has_key`.
pub open spec fn key_index(s: Seq<SnapEntry>, k: Seq<char>) -> int {
    choose|i: int| 0 <= i < s.len() && s[i].0@ == k
}

/// The metadata recorded for `k`; meaningful only when `has_key`.
pub open spec fn meta_for(s: Seq<SnapEntry>, k: Seq<char>) -> FileMetadata {
    s[key_index(s, k)].1
}

/// Each path appears at most once in a snapshot.
pub open spec fn uniq_keys(s: Seq<SnapEntry>) -> bool {
    forall|i: int, j: int| 0 <= i < j < s.len() ==> s[i].0@ != s[j].0@
}

/// The paths among the first `i` entries of `cur` that `prev` does not hold,
/// in scan order.
pub open spec fn created_of(cur: Seq<SnapEntry>, prev: Seq<SnapEntry>, i: int) -> Seq<Seq<char>>
    decreases i when 0 <= i <= cur.len()
{
    if i <= 0 {
        Seq::empty()
    } else if !has_key(prev, cur[i - 1].0@) {
        created_of(cur, prev, i - 1).push(cur[i - 1].0@)
    } else {
        created_of(cur, prev, i - 1)
    }
}

/// The paths among the first `i` entries of `cur` that `prev` holds with
/// different metadata, in scan order.
pub open spec fn modified_of(cur: Seq<SnapEntry>, prev: Seq<SnapEntry>, i: int) -> Seq<Seq<char>>
    decreases i when 0 <= i <= cur.len()
{
    if i <= 0 {
        Seq::empty()
    } else if has_key(prev, cur[i - 1].0@) && meta_for(prev, cur[i - 1].0@) != cur[i - 1].1 {
        modified_of(cur, prev, i - 1).push(cur[i - 1].0@)
    } else {
        modified_of(cur, prev, i - 1)
    }
}

/// The bytes of the first `i` entries of `cur` that `prev` does not hold.
pub open spec fn created_bytes_of(cur: Seq<SnapEntry>, prev: Seq<SnapEntry>, i: int) -> int
    decreases i when 0 <= i <= cur.len()
{
    if i <= 0 {
        0
    } else if !has_key(prev, cur[i - 1].0@) {
        created_bytes_of(cur, prev, i - 1) + cur[i - 1].1.size
    } else {
        created_bytes_of(cur, prev, i - 1)
    }
}

/// The bytes of the first `i` entries of `s` in all.
pub open spec fn total_bytes_of(s: Seq<SnapEntry>, i: int) -> int
    decreases i when 0 <= i <= s.len()
{
    if i <= 0 {
        0
    } else {
        total_bytes_of(s, i - 1) + s[i - 1].1.size
    }
}

proof fn lemma_created_bytes_bound(cur: Seq<SnapEntry>, prev: Seq<SnapEntry>, i: int)
    requires
        0 <= i <= cur.len(),
    ensures
        0 <= created_bytes_of(cur, prev, i) <= total_bytes_of(cur, i),
    decreases i,
{
    if i > 0 {
        lemma_created_bytes_bound(cur, prev, i - 1);
    }
}

proof fn lemma_total_bytes_monotone(s: Seq<SnapEntry>, i: int, j: int)
    requires
        0 <= i <= j <= s.len(),
    ensures
        total_bytes_of(s, i) <= total_bytes_of(s, j),
    decreases j - i,
{
    if i < j {
        lemma_total_bytes_monotone(s, i, j - 1);
    }
}

proof fn lemma_total_bytes_nonneg(s: Seq<SnapEntry>, i: int)
    requires
        0 <= i <= s.len(),
    ensures
        0 <= total_bytes_of(s, i),
    decreases i,
{
    if i > 0 {
        lemma_total_bytes_nonneg(s, i - 1);
    }
}

/// Looks up `k` in a snapshot held as a list of unique keys.
fn snap_lookup(s: &Vec<SnapEntry>, k: &str) -> (r: Option<FileMetadata>)
    requires
        uniq_keys(s@),
    ensures
        r matches Some(m) ==> has_key(s@, k@) && m == meta_for(s@, k@),
        r is None ==> !has_key(s@, k@),
{
    let mut i: usize = 0;
    while i < s.len()
        invariant
            uniq_keys(s@),
            i <= s@.len(),
            forall|j: int| 0 <= j < i ==> s@[j].0@ != k@,
        decreases s@.len() - i,
    {
        if str_eq(s[i].0.as_str(), k) {
            proof {
                assert(snap_keys(s@)[i as int] == k@);
                assert forall|j: int|
                    0 <= j < s@.len() && s@[j].0@ == k@ implies j == i by {
                    if j != i {
                        assert(s@[i as int].0@ != s@[j].0@);
                    }
                }
            }
            return Some(s[i].1);
        }
        i += 1;
    }
    proof {
        assert forall|j: int| 0 <= j < snap_keys(s@).len()
            implies snap_keys(s@)[j] != k@ by {
            assert(s@[j].0@ != k@);
        }
    }
    None
}

/// The audit tool's state: the workspace and state-file locations and the
/// two snapshots being compared.
pub struct SentryAudit {
    pub workspace: String,
    pub state_file: String,
    pub current_snapshot: Vec<SnapEntry>,
    pub previous_snapshot: Vec<SnapEntry>,
}

impl SentryAudit {
    pub open spec fn wf(self) -> bool {
        uniq_keys(self.current_snapshot@) && uniq_keys(self.previous_snapshot@)
    }

    /// A fresh audit over the default workspace, with empty snapshots.
    pub fn new() -> (r: SentryAudit)
        ensures
            r.wf(),
            r.current_snapshot@ == Seq::<SnapEntry>::empty(),
            r.previous_snapshot@ == Seq::<SnapEntry>::empty(),
    {
        SentryAudit {
            workspace: String::from_str("/home/a2/Desktop/gem"),
            state_file: String::from_str("/home/a2/Desktop/gem/opb/backend/.sentry_state.json"),
            current_snapshot: Vec::new(),
            previous_snapshot: Vec::new(),
        }
    }

    /// Takes the previously persisted snapshot, if one could be read.
    pub fn load_previous_state(&mut self, state: Option<SentryState>)
        ensures
            state matches Some(s) ==> final(self).previous_snapshot == s.files,
            state is None ==> final(self).previous_snapshot == old(self).previous_snapshot,
            final(self).current_snapshot == old(self).current_snapshot,
            final(self).workspace == old(self).workspace,
            final(self).state_file == old(self).state_file,
    {
        match state {
            Some(s) => {
                self.previous_snapshot = s.files;
            },
            None => {},
        }
    }

    /// Takes the current filesystem scan.
    pub fn scan_filesystem(&mut self, entries: Vec<SnapEntry>)
        ensures
            final(self).current_snapshot == entries,
            final(self).previous_snapshot == old(self).previous_snapshot,
            final(self).workspace == old(self).workspace,
            final(self).state_file == old(self).state_file,
    {
        self.current_snapshot = entries;
    }

    /// The current snapshot, stamped for persistence.
    pub fn save_current_state(&self, timestamp: String) -> (r: SentryState)
        ensures
            r.files@ == self.current_snapshot@,
            r.timestamp == timestamp,
    {
        let mut files: Vec<SnapEntry> = Vec::new();
        let mut i: usize = 0;
        while i < self.current_snapshot.len()
            invariant
                i <= self.current_snapshot@.len(),
                files@ == self.current_snapshot@.take(i as int),
            decreases self.current_snapshot@.len() - i,
        {
            let entry = &self.current_snapshot[i];
            files.push((entry.0.clone(), entry.1));
            proof {
                assert(files@ =~= self.current_snapshot@.take(i + 1));
            }
            i += 1;
        }
        proof {
            assert(files@ =~= self.current_snapshot@);
        }
        SentryState { timestamp, files }
    }

    /// Compares the two snapshots: which paths appeared, changed, or
    /// vanished, how many bytes the workspace grew or shrank, and how many
    /// files churned in all.
    pub fn analyze_changes(&self) -> (r: ChangeSummary)
        requires
            self.wf(),
            total_bytes_of(self.current_snapshot@, self.current_snapshot@.len() as int)
                <= i64::MAX,
            total_bytes_of(self.previous_snapshot@, self.previous_snapshot@.len() as int)
                <= i64::MAX,
            2 * self.current_snapshot@.len() + self.previous_snapshot@.len() <= usize::MAX,
        ensures
            ({
                let cur = self.current_snapshot@;
                let prev = self.previous_snapshot@;
                &&& r.created@.map_values(|s: String| s@)
                    == created_of(cur, prev, cur.len() as int)
                &&& r.modified@.map_values(|s: String| s@)
                    == modified_of(cur, prev, cur.len() as int)
                &&& r.deleted@.map_values(|s: String| s@)
                    == created_of(prev, cur, prev.len() as int)
                &&& r.delta_bytes == created_bytes_of(cur, prev, cur.len() as int)
                    - created_bytes_of(prev, cur, prev.len() as int)
                &&& r.churn == r.created@.len() + r.modified@.len() + r.deleted@.len()
            }),
    {
        let cur_len = self.current_snapshot.len();
        let prev_len = self.previous_snapshot.len();
        let mut created: Vec<String> = Vec::new();
        let mut modified: Vec<String> = Vec::new();
        let mut created_bytes: i64 = 0;
        let mut i: usize = 0;
        while i < cur_len
            invariant
                self.wf(),
                cur_len == self.current_snapshot@.len(),
                total_bytes_of(self.current_snapshot@, cur_len as int) <= i64::MAX,
                i <= cur_len,
                created@.map_values(|s: String| s@)
                    == created_of(self.current_snapshot@, self.previous_snapshot@, i as int),
                modified@.map_values(|s: String| s@)
                    == modified_of(self.current_snapshot@, self.previous_snapshot@, i as int),
                created_bytes
                    == created_bytes_of(self.current_snapshot@, self.previous_snapshot@, i as int),
                created@.len() <= i,
                modified@.len() <= i,
            decreases cur_len - i,
        {
            let entry = &self.current_snapshot[i];
            proof {
                lemma_created_bytes_bound(self.current_snapshot@, self.previous_snapshot@, i as int);
                lemma_created_bytes_bound(
                    self.current_snapshot@,
                    self.previous_snapshot@,
                    i + 1,
                );
                lemma_total_bytes_nonneg(self.current_snapshot@, i as int);
                lemma_total_bytes_monotone(self.current_snapshot@, i + 1, cur_len as int);
            }
            match snap_lookup(&self.previous_snapshot, entry.0.as_str()) {
                None => {
                    created.push(entry.0.clone());
                    created_bytes = created_bytes + (entry.1.size as i64);
                    proof {
                        assert(created@.map_values(|s: String| s@) =~= created_of(
                            self.current_snapshot@,
                            self.previous_snapshot@,
                            i + 1,
                        ));
                    }
                },
                Some(prev_meta) => {
                    let changed = prev_meta.size != entry.1.size
                        || prev_meta.mtime != entry.1.mtime;
                    if changed {
                        modified.push(entry.0.clone());
                        proof {
                            assert(modified@.map_values(|s: String| s@) =~= modified_of(
                                self.current_snapshot@,
                                self.previous_snapshot@,
                                i + 1,
                            ));
                        }
                    }
                },
            }
            i += 1;
        }
        let mut deleted: Vec<String> = Vec::new();
        let mut deleted_bytes: i64 = 0;
        let mut j: usize = 0;
        while j < prev_len
            invariant
                self.wf(),
                prev_len == self.previous_snapshot@.len(),
                total_bytes_of(self.previous_snapshot@, prev_len as int) <= i64::MAX,
                j <= prev_len,
                deleted@.map_values(|s: String| s@)
                    == created_of(self.previous_snapshot@, self.current_snapshot@, j as int),
                deleted_bytes
                    == created_bytes_of(self.previous_snapshot@, self.current_snapshot@, j as int),
                deleted@.len() <= j,
            decreases prev_len - j,
        {
            let entry = &self.previous_snapshot[j];
            proof {
                lemma_created_bytes_bound(self.previous_snapshot@, self.current_snapshot@, j as int);
                lemma_created_bytes_bound(
                    self.previous_snapshot@,
                    self.current_snapshot@,
                    j + 1,
                );
                lemma_total_bytes_nonneg(self.previous_snapshot@, j as int);
                lemma_total_bytes_monotone(self.previous_snapshot@, j + 1, prev_len as int);
            }
            if snap_lookup(&self.current_snapshot, entry.0.as_str()).is_none() {
                deleted.push(entry.0.clone());
                deleted_bytes = deleted_bytes + (entry.1.size as i64);
                proof {
                    assert(deleted@.map_values(|s: String| s@) =~= created_of(
                        self.previous_snapshot@,
                        self.current_snapshot@,
                        j + 1,
                    ));
                }
            }
            j += 1;
        }
        proof {
            lemma_created_bytes_bound(
                self.current_snapshot@,
                self.previous_snapshot@,
                cur_len as int,
            );
            lemma_created_bytes_bound(
                self.previous_snapshot@,
                self.current_snapshot@,
                prev_len as int,
            );
        }
        let churn = created.len() + modified.len() + deleted.len();
        ChangeSummary {
            created,
            modified,
            deleted,
            delta_bytes: created_bytes - deleted_bytes,
            churn,
        }
    }
}

/// The alerts a report raises, in report order.
pub open spec fn alerts_of(changes: ChangeSummary, git: GitStatus, disk: DiskUsage) -> Seq<Alert> {
    (if git.available && !git.clean { seq![Alert::UncommittedChanges] } else { Seq::empty() })
        + (if disk.usage_percent > 80 { seq![Alert::DiskUsageHigh] } else { Seq::empty() })
        + (if changes.churn > 50 { seq![Alert::HighChurn] } else { Seq::empty() })
}

/// The actions a report recommends, in report order.
pub open spec fn actions_of(git: GitStatus, disk: DiskUsage) -> Seq<RecommendedAction> {
    (if git.available && !git.clean { seq![RecommendedAction::CommitOrStash] } else { Seq::empty() })
        + (if disk.usage_percent > 80 { seq![RecommendedAction::ReviewDiskUsage] } else { Seq::empty() })
}

/// The churn grading the report's summary line uses.
pub open spec fn churn_level_of(churn: usize) -> ChurnLevel {
    if churn > 20 {
        ChurnLevel::High
    } else if churn > 5 {
        ChurnLevel::Medium
    } else {
        ChurnLevel::Low
    }
}

impl SentryAudit {
    /// Derives the report's decisions from the change summary and the git
    /// and disk probes; the caller renders them as text.
    pub fn generate_report(
        &self,
        changes: ChangeSummary,
        git: &GitStatus,
        disk: &DiskUsage,
    ) -> (r: AuditReport)
        ensures
            r.changes == changes,
            r.churn_level == churn_level_of(changes.churn),
            r.disk_warning == (disk.usage_percent > 80),
            r.alerts@ == alerts_of(changes, *git, *disk),
            r.actions@ == actions_of(*git, *disk),
    {
        let churn_level = if changes.churn > 20 {
            ChurnLevel::High
        } else if changes.churn > 5 {
            ChurnLevel::Medium
        } else {
            ChurnLevel::Low
        };
        let disk_warning = disk.usage_percent > 80;
        let mut alerts: Vec<Alert> = Vec::new();
        if git.available && !git.clean {
            alerts.push(Alert::UncommittedChanges);
        }
        if disk_warning {
            alerts.push(Alert::DiskUsageHigh);
        }
        if changes.churn > 50 {
            alerts.push(Alert::HighChurn);
        }
        let mut actions: Vec<RecommendedAction> = Vec::new();
        if git.available && !git.clean {
            actions.push(RecommendedAction::CommitOrStash);
        }
        if disk_warning {
            actions.push(RecommendedAction::ReviewDiskUsage);
        }
        proof {
            assert(alerts@ =~= alerts_of(changes, *git, *disk));
            assert(actions@ =~= actions_of(*git, *disk));
        }
        AuditReport { changes, churn_level, disk_warning, alerts, actions }
    }

    /// One audit pass over plain inputs: adopt the previous snapshot, take
    /// the new scan, compare them, and derive the report's decisions. The
    /// caller persists `save_current_state` and renders the report.
    pub fn run(
        &mut self,
        previous: Option<SentryState>,
        current: Vec<SnapEntry>,
        git: &GitStatus,
        disk: &DiskUsage,
    ) -> (r: AuditReport)
        requires
            uniq_keys(current@),
            (previous matches Some(s) ==> uniq_keys(s.files@)),
            (previous is None ==> uniq_keys(old(self).previous_snapshot@)),
            total_bytes_of(current@, current@.len() as int) <= i64::MAX,
            (previous matches Some(s)
                ==> total_bytes_of(s.files@, s.files@.len() as int) <= i64::MAX),
            (previous is None ==> total_bytes_of(
                old(self).previous_snapshot@,
                old(self).previous_snapshot@.len() as int,
            ) <= i64::MAX),
            (previous matches Some(s)
                ==> 2 * current@.len() + s.files@.len() <= usize::MAX),
            (previous is None
                ==> 2 * current@.len() + old(self).previous_snapshot@.len() <= usize::MAX),
        ensures
            final(self).wf(),
            final(self).current_snapshot == current,
            previous matches Some(s) ==> final(self).previous_snapshot == s.files,
            previous is None ==> final(self).previous_snapshot == old(self).previous_snapshot,
            ({
                let cur = current@;
                let prev = final(self).previous_snapshot@;
                &&& r.changes.created@.map_values(|s: String| s@)
                    == created_of(cur, prev, cur.len() as int)
                &&& r.changes.modified@.map_values(|s: String| s@)
                    == modified_of(cur, prev, cur.len() as int)
                &&& r.changes.deleted@.map_values(|s: String| s@)
                    == created_of(prev, cur, prev.len() as int)
                &&& r.changes.delta_bytes == created_bytes_of(cur, prev, cur.len() as int)
                    - created_bytes_of(prev, cur, prev.len() as int)
                &&& r.churn_level == churn_level_of(r.changes.churn)
                &&& r.disk_warning == (disk.usage_percent > 80)
                &&& r.alerts@ == alerts_of(r.changes, *git, *disk)
                &&& r.actions@ == actions_of(*git, *disk)
            }),
    {
        self.load_previous_state(previous);
        self.scan_filesystem(current);
        let changes = self.analyze_changes();
        self.generate_report(changes, git, disk)
    }
}

/// Whether position `i` starts a line of `s`.
pub open spec fn is_line_start(s: Seq<char>, i: int) -> bool {
    i == 0 || s[i - 1] == '\n'
}

/// How many lines of `s`, up to position `i`, start with `pat`.
pub open spec fn count_prefixed(s: Seq<char>, pat: Seq<char>, i: int) -> int
    decreases i when 0 <= i <= s.len()
{
    if i <= 0 {
        0
    } else {
        count_prefixed(s, pat, i - 1)
            + if is_line_start(s, i - 1) && match_at(s, pat, i - 1, false) { 1int } else { 0 }
    }
}

proof fn lemma_count_prefixed_bound(s: Seq<char>, pat: Seq<char>, i: int)
    requires
        0 <= i <= s.len(),
    ensures
        0 <= count_prefixed(s, pat, i) <= i,
    decreases i,
{
    if i > 0 {
        lemma_count_prefixed_bound(s, pat, i - 1);
    }
}

/// Counts the lines of a `git status --porcelain` output that start with
/// `pat` (such as a staged, modified, or untracked marker).
pub fn count_porcelain_lines(s: &str, pat: &str) -> (r: usize)
    ensures
        r == count_prefixed(s@, pat@, s@.len() as int),
{
    let n = s.unicode_len();
    let m = pat.unicode_len();
    let mut count: usize = 0;
    let mut i: usize = 0;
    while i < n
        invariant
            n == s@.len(),
            m == pat@.len(),
            i <= n,
            count == count_prefixed(s@, pat@, i as int),
            count <= i,
        decreases n - i,
    {
        proof {
            lemma_count_prefixed_bound(s@, pat@, i as int);
        }
        let line_start = i == 0 || s.get_char(i - 1) == '\n';
        let here = if line_start && m <= n - i {
            match_here(s, pat, i, false)
        } else {
            proof {
                if i + m > n {
                    assert(!match_at(s@, pat@, i as int, false));
                }
            }
            false
        };
        if here {
            count += 1;
        }
        i += 1;
    }
    count
}

} // verus!
