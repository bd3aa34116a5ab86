//! Disk-cleanup policy: which scanned locations are offered as cleanup
//! candidates, and which action a cleanup request is allowed to perform.
//!
//! The filesystem walk, the package-cache commands, and the deletions happen
//! outside; this module decides.

use vstd::prelude::*;
use vstd::string::{StrSliceExecFns, StringExecFns};

use crate::models::CleanupItem;
use crate::text::{contains_sub, find_sub, str_eq};

verus! {

/// A location is offered for cleanup only from this size on.
pub const CLEANUP_SIZE_THRESHOLD: u64 = 300 * 1024 * 1024;

/// A workspace-cache entry is offered only once untouched for this long.
pub const CLEANUP_AGE_SECS: u64 = 7 * 24 * 60 * 60;

/// What a cleanup request is allowed to do.
#[derive(Debug, Clone, Copy, PartialEq, Eq, Structural)]
pub enum CleanupAction {
    /// Delete the file or directory at the requested path.
    DeletePath,
    /// Clear the system package cache.
    CleanPacmanCache,
    /// Vacuum the system journal.
    VacuumJournal,
}

/// Why a cleanup request was refused.
#[derive(Debug, Clone, Copy, PartialEq, Eq, Structural)]
pub enum CleanupError {
    /// A workspace-cache deletion outside the cache directory.
    UnsafePath,
    /// A system cleanup on a path that is not one of the two allowed.
    UnsafeSystemPath,
    /// Neither the workspace-cache nor the system category.
    UnknownCategory,
}

/// One scanned workspace-cache entry, as the walk reports it.
#[derive(Debug, Clone)]
pub struct ScannedEntry {
    pub name: String,
    pub path: String,
    pub size: u64,
    pub mtime: u64,
}

/// How long ago `mtime` was at time `now`; a clock that moved backwards
/// counts as age zero.
pub open spec fn entry_age(now: u64, mtime: u64) -> int {
    if now >= mtime {
        now - mtime
    } else {
        0
    }
}

/// Whether a scanned workspace-cache entry is offered for cleanup: large
/// enough, and untouched for long enough.
pub open spec fn keeps_entry(e: ScannedEntry, now: u64) -> bool {
    e.size >= CLEANUP_SIZE_THRESHOLD && entry_age(now, e.mtime) > CLEANUP_AGE_SECS
}

/// The view of one cleanup item: id, name, path, size, category.
pub type ItemView = (Seq<char>, Seq<char>, Seq<char>, u64, Seq<char>);

pub open spec fn item_view(it: CleanupItem) -> ItemView {
    (it.id@, it.name@, it.path@, it.size, it.category@)
}

/// The views of the items kept from the first `i` scanned entries.
pub open spec fn kept_views(s: Seq<ScannedEntry>, now: u64, i: int) -> Seq<ItemView>
    decreases i when 0 <= i <= s.len()
{
    if i <= 0 {
        Seq::empty()
    } else if keeps_entry(s[i - 1], now) {
        kept_views(s, now, i - 1).push((
            "gemini_"@ + s[i - 1].name@,
            s[i - 1].name@,
            s[i - 1].path@,
            s[i - 1].size,
            "gemini"@,
        ))
    } else {
        kept_views(s, now, i - 1)
    }
}

/// The system-cache candidates: the package cache and the journal, each
/// offered when present and at least the size threshold.
pub open spec fn system_views(pacman_size: Option<u64>, journal_size: Option<u64>) -> Seq<ItemView> {
    (match pacman_size {
        Some(sz) => if sz >= CLEANUP_SIZE_THRESHOLD {
            seq![
                ("system_pacman"@, "Pacman Package Cache"@, "/var/cache/pacman/pkg/"@, sz,
                    "system"@),
            ]
        } else {
            Seq::empty()
        },
        None => Seq::empty(),
    }) + (match journal_size {
        Some(sz) => if sz >= CLEANUP_SIZE_THRESHOLD {
            seq![
                ("system_journal"@, "Systemd Journal Logs"@, "/var/log/journal/"@, sz,
                    "system"@),
            ]
        } else {
            Seq::empty()
        },
        None => Seq::empty(),
    })
}

/// Builds the cleanup-candidate list from a scan of the workspace cache and
/// the measured sizes of the package cache and the journal (`None` where the
/// directory does not exist).
pub fn scan_cleanup_candidates(
    gemini: &Vec<ScannedEntry>,
    now: u64,
    pacman_size: Option<u64>,
    journal_size: Option<u64>,
) -> (r: Vec<CleanupItem>)
    ensures
        r@.map_values(|it: CleanupItem| item_view(it))
            == kept_views(gemini@, now, gemini@.len() as int)
                + system_views(pacman_size, journal_size),
{
    let mut out: Vec<CleanupItem> = Vec::new();
    let mut i: usize = 0;
    while i < gemini.len()
        invariant
            i <= gemini@.len(),
            out@.map_values(|it: CleanupItem| item_view(it))
                == kept_views(gemini@, now, i as int),
        decreases gemini@.len() - i,
    {
        let e = &gemini[i];
        let age = if now >= e.mtime { now - e.mtime } else { 0 };
        if e.size >= CLEANUP_SIZE_THRESHOLD && age > CLEANUP_AGE_SECS {
            let id = String::from_str("gemini_").concat(e.name.as_str());
            out.push(CleanupItem {
                id,
                name: e.name.clone(),
                path: e.path.clone(),
                size: e.size,
                category: String::from_str("gemini"),
            });
            proof {
                assert(out@.map_values(|it: CleanupItem| item_view(it))
                    =~= kept_views(gemini@, now, i + 1));
            }
        }
        i += 1;
    }
    match pacman_size {
        Some(sz) => {
            if sz >= CLEANUP_SIZE_THRESHOLD {
                out.push(CleanupItem {
                    id: String::from_str("system_pacman"),
                    name: String::from_str("Pacman Package Cache"),
                    path: String::from_str("/var/cache/pacman/pkg/"),
                    size: sz,
                    category: String::from_str("system"),
                });
            }
        },
        None => {},
    }
    match journal_size {
        Some(sz) => {
            if sz >= CLEANUP_SIZE_THRESHOLD {
                out.push(CleanupItem {
                    id: String::from_str("system_journal"),
                    name: String::from_str("Systemd Journal Logs"),
                    path: String::from_str("/var/log/journal/"),
                    size: sz,
                    category: String::from_str("system"),
                });
            }
        },
        None => {},
    }
    proof {
        assert(out@.map_values(|it: CleanupItem| item_view(it))
            =~= kept_views(gemini@, now, gemini@.len() as int)
                + system_views(pacman_size, journal_size));
    }
    out
}

/// Decides what a cleanup request may do. Workspace-cache deletions are
/// confined to paths inside the cache directory; system cleanups are
/// confined to the package cache and the journal; anything else is refused.
pub fn perform_cleanup(path: &str, category: &str) -> (r: Result<CleanupAction, CleanupError>)
    ensures
        category@ == "gemini"@ ==> r == if contains_sub(path@, ".gemini"@, false) {
            Ok::<CleanupAction, CleanupError>(CleanupAction::DeletePath)
        } else {
            Err::<CleanupAction, CleanupError>(CleanupError::UnsafePath)
        },
        category@ == "system"@ ==> r == if path@ == "/var/cache/pacman/pkg/"@ {
            Ok::<CleanupAction, CleanupError>(CleanupAction::CleanPacmanCache)
        } else if path@ == "/var/log/journal/"@ {
            Ok::<CleanupAction, CleanupError>(CleanupAction::VacuumJournal)
        } else {
            Err::<CleanupAction, CleanupError>(CleanupError::UnsafeSystemPath)
        },
        category@ != "gemini"@ && category@ != "system"@
            ==> r == Err::<CleanupAction, CleanupError>(CleanupError::UnknownCategory),
{
    proof {
        // the two category literals must be known distinct
        reveal_strlit("gemini");
        reveal_strlit("system");
        assert("gemini"@[0] == 'g');
        assert("system"@[0] == 's');
        assert("gemini"@ != "system"@);
    }
    if str_eq(category, "gemini") {
        if find_sub(path, ".gemini", false).is_some() {
            Ok(CleanupAction::DeletePath)
        } else {
            Err(CleanupError::UnsafePath)
        }
    } else if str_eq(category, "system") {
        if str_eq(path, "/var/cache/pacman/pkg/") {
            Ok(CleanupAction::CleanPacmanCache)
        } else if str_eq(path, "/var/log/journal/") {
            Ok(CleanupAction::VacuumJournal)
        } else {
            Err(CleanupError::UnsafeSystemPath)
        }
    } else {
        Err(CleanupError::UnknownCategory)
    }
}

} // verus!
