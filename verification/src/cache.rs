//! When a stored snapshot of posts may be reused.
//!
//! The snapshot carries no timestamp of its own: its age is the distance
//! between the file's last modification and the current time.

use vstd::prelude::*;

verus! {

/// Greatest age, in seconds, at which a snapshot may still be reused: seven days.
pub const MAX_AGE_SECS: i64 = 7 * 24 * 3600;

/// What the file system reports about the snapshot's path.
#[derive(Clone, Copy, Debug, PartialEq, Eq, Structural)]
pub struct PathStat {
    /// Whether the path names a regular file.
    pub is_file: bool,
    /// Last modification, in seconds since the Unix epoch.
    pub modified_secs: i64,
}

/// The state of the snapshot, which decides what the caller does with its path.
#[derive(Clone, Copy, Debug, PartialEq, Eq, Structural)]
pub enum CacheVerdict {
    /// Nothing is stored at the path.
    Missing,
    /// The path exists but is no regular file.
    NotAFile,
    /// The snapshot is older than [`MAX_AGE_SECS`].
    Stale,
    /// The snapshot is young enough to be read.
    Fresh,
}

/// Age of a snapshot modified at `modified_secs`, seen at `now_secs`.
/// Negative when the modification lies in the future.
pub open spec fn age_secs(modified_secs: i64, now_secs: i64) -> int {
    now_secs - modified_secs
}

/// The verdict on a path with the given status at time `now_secs`.
pub open spec fn verdict_of(stat: Option<PathStat>, now_secs: i64) -> CacheVerdict {
    match stat {
        None => CacheVerdict::Missing,
        Some(s) => if !s.is_file {
            CacheVerdict::NotAFile
        } else if age_secs(s.modified_secs, now_secs) > MAX_AGE_SECS {
            CacheVerdict::Stale
        } else {
            CacheVerdict::Fresh
        },
    }
}

impl CacheVerdict {
    /// Whether the path has to be removed before anything else happens.
    pub open spec fn removes(self) -> bool {
        self == CacheVerdict::NotAFile || self == CacheVerdict::Stale
    }

    /// Whether the snapshot is to be read and returned.
    pub open spec fn reads(self) -> bool {
        self == CacheVerdict::Fresh
    }

    /// Tells whether the caller has to delete what is at the path.
    pub fn must_remove(self) -> (r: bool)
        ensures
            r == self.removes(),
    {
        match self {
            CacheVerdict::NotAFile => true,
            CacheVerdict::Stale => true,
            _ => false,
        }
    }

    /// Tells whether the caller may read the snapshot.
    pub fn may_read(self) -> (r: bool)
        ensures
            r == self.reads(),
    {
        match self {
            CacheVerdict::Fresh => true,
            _ => false,
        }
    }
}

/// Judges the snapshot from the status of its path (`None` when nothing is
/// there) and the current time in seconds since the Unix epoch.
///
/// A snapshot is stale exactly when its age exceeds seven days; one modified
/// in the future counts as fresh.
pub fn judge(stat: Option<PathStat>, now_secs: i64) -> (verdict: CacheVerdict)
    ensures
        verdict == verdict_of(stat, now_secs),
{
    match stat {
        None => CacheVerdict::Missing,
        Some(s) => {
            if !s.is_file {
                CacheVerdict::NotAFile
            } else {
                let age: i128 = now_secs as i128 - s.modified_secs as i128;
                if age > MAX_AGE_SECS as i128 {
                    CacheVerdict::Stale
                } else {
                    CacheVerdict::Fresh
                }
            }
        },
    }
}

/// A snapshot is read as long as it is at most seven days old: its path
/// stays, and what it holds is returned.
pub proof fn snapshot_within_a_week_is_read(stat: PathStat, now_secs: i64)
    requires
        stat.is_file,
        age_secs(stat.modified_secs, now_secs) <= MAX_AGE_SECS,
    ensures
        verdict_of(Some(stat), now_secs) == CacheVerdict::Fresh,
        verdict_of(Some(stat), now_secs).reads(),
        !verdict_of(Some(stat), now_secs).removes(),
{
}

/// A snapshot that was last modified more than seven days ago is removed
/// and not read.
pub proof fn snapshot_over_a_week_is_removed(stat: PathStat, now_secs: i64)
    requires
        stat.is_file,
        age_secs(stat.modified_secs, now_secs) > MAX_AGE_SECS,
    ensures
        verdict_of(Some(stat), now_secs) == CacheVerdict::Stale,
        verdict_of(Some(stat), now_secs).removes(),
        !verdict_of(Some(stat), now_secs).reads(),
{
}

/// Where nothing is stored, nothing is read and nothing is removed. What
/// is no regular file is removed, whatever its age, and not read.
pub proof fn only_files_are_read(stat: Option<PathStat>, now_secs: i64)
    ensures
        stat is None ==> !verdict_of(stat, now_secs).reads(),
        stat is None ==> !verdict_of(stat, now_secs).removes(),
        stat matches Some(s) && !s.is_file ==> verdict_of(stat, now_secs).removes(),
        stat matches Some(s) && !s.is_file ==> !verdict_of(stat, now_secs).reads(),
{
}

} // verus!
