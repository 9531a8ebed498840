//! The directories the application manages itself (its data directory, its
//! local config directory and the user's skills directory) and the changes
//! reported under them.
//!
//! Which directories are watched, with which filter, and what a batch of
//! filesystem changes touches are decided here; creating the directories and
//! running the watcher stay with the caller.

use vstd::prelude::*;

use crate::session_mode::{paths_equal, same_path};

verus! {

/// Whether `path` starts with the path `base`, compared component by
/// component as `std::path::Path::starts_with` compares them.
pub uninterp spec fn path_has_prefix(path: Seq<char>, base: Seq<char>) -> bool;

/// The path `base` extended by `child`, as `std::path::Path::join` builds it.
pub uninterp spec fn joined_path(base: Seq<char>, child: Seq<char>) -> Seq<char>;

/// Calls `std::path::Path::starts_with`. The contract claims only that the
/// answer is the named relation of the two paths.
#[verifier::external_body]
fn path_starts_with(path: &str, base: &str) -> (r: bool)
    ensures
        r == path_has_prefix(path@, base@),
{
    std::path::Path::new(path).starts_with(base)
}

/// Calls `std::path::Path::join` and turns the result back into a string.
/// The contract claims only that the result is the named join of the two
/// arguments.
#[verifier::external_body]
fn path_join(base: &str, child: &str) -> (r: String)
    ensures
        r@ == joined_path(base@, child@),
{
    std::path::Path::new(base).join(child).to_string_lossy().into_owned()
}

/// The subdirectory of the data directory that holds worktrees; it is not
/// watched.
pub const WORKTREES_DIR_NAME: &'static str = "worktrees";

/// What a watched directory reports.
#[derive(Debug, Clone, PartialEq, Eq)]
pub enum WatchFilter {
    /// Every path below the directory.
    AcceptAll,
    /// Every path below the directory but those under `excluded`.
    ExcludeSubtree { excluded: String },
}

/// A directory to watch recursively.
#[derive(Debug, Clone)]
pub struct WatchRegistration {
    pub path: String,
    pub filter: WatchFilter,
    /// How the directory is named in warnings.
    pub description: &'static str,
}

/// A registration seen as (path, excluded subtree, description).
pub open spec fn registration_view(r: WatchRegistration) -> (Seq<char>, Option<Seq<char>>, Seq<char>) {
    (
        r.path@,
        match r.filter {
            WatchFilter::AcceptAll => None,
            WatchFilter::ExcludeSubtree { excluded } => Some(excluded@),
        },
        r.description@,
    )
}

/// Whether the skills directory needs a watch of its own: it exists and lies
/// under neither the data directory nor a separately watched config
/// directory.
pub open spec fn skills_dir_watched_separately(
    data_dir: Seq<char>,
    config_local_dir: Seq<char>,
    skills_dir: Seq<char>,
    skills_dir_exists: bool,
) -> bool {
    &&& skills_dir_exists
    &&& !path_has_prefix(skills_dir, data_dir)
    &&& (same_path(config_local_dir, data_dir) || !path_has_prefix(skills_dir, config_local_dir))
}

/// The directories to watch: the data directory without its worktrees, the
/// config directory when it is another directory, and the skills directory
/// when it needs a watch of its own.
pub open spec fn watch_plan(
    data_dir: Seq<char>,
    config_local_dir: Seq<char>,
    skills_dir: Option<Seq<char>>,
    skills_dir_exists: bool,
) -> Seq<(Seq<char>, Option<Seq<char>>, Seq<char>)> {
    let data = seq![
        (data_dir, Some(joined_path(data_dir, "worktrees"@)), "Warp data directory"@),
    ];
    let with_config = if same_path(config_local_dir, data_dir) {
        data
    } else {
        data.push((config_local_dir, None, "Warp config directory"@))
    };
    match skills_dir {
        Some(s) => if skills_dir_watched_separately(data_dir, config_local_dir, s, skills_dir_exists) {
            with_config.push((s, None, "Warp home skills directory"@))
        } else {
            with_config
        },
        None => with_config,
    }
}

/// The directories to watch (see [`watch_plan`]).
pub fn watch_registrations(
    data_dir: &str,
    config_local_dir: &str,
    skills_dir: Option<&str>,
    skills_dir_exists: bool,
) -> (r: Vec<WatchRegistration>)
    ensures
        r@.map_values(|x: WatchRegistration| registration_view(x)) == watch_plan(
            data_dir@,
            config_local_dir@,
            match skills_dir {
                Some(s) => Some(s@),
                None => None,
            },
            skills_dir_exists,
        ),
{
    let ghost skills = match skills_dir {
        Some(s) => Some(s@),
        None => None::<Seq<char>>,
    };
    let mut r: Vec<WatchRegistration> = Vec::new();
    let excluded = path_join(data_dir, WORKTREES_DIR_NAME);
    proof {
        reveal_strlit("worktrees");
    }
    r.push(
        WatchRegistration {
            path: String::from_str(data_dir),
            filter: WatchFilter::ExcludeSubtree { excluded },
            description: "Warp data directory",
        },
    );
    let config_is_data_dir = paths_equal(config_local_dir, data_dir);
    if !config_is_data_dir {
        r.push(
            WatchRegistration {
                path: String::from_str(config_local_dir),
                filter: WatchFilter::AcceptAll,
                description: "Warp config directory",
            },
        );
    }
    if let Some(s) = skills_dir {
        if skills_dir_exists && !path_starts_with(s, data_dir) && (config_is_data_dir
            || !path_starts_with(s, config_local_dir)) {
            r.push(
                WatchRegistration {
                    path: String::from_str(s),
                    filter: WatchFilter::AcceptAll,
                    description: "Warp home skills directory",
                },
            );
        }
    }
    proof {
        assert(r@.map_values(|x: WatchRegistration| registration_view(x)) =~= watch_plan(
            data_dir@,
            config_local_dir@,
            skills,
            skills_dir_exists,
        ));
    }
    r
}

/// Whether a watch with `filter` reports `path`.
pub fn filter_accepts(filter: &WatchFilter, path: &str) -> (r: bool)
    ensures
        r == match filter {
            WatchFilter::AcceptAll => true,
            WatchFilter::ExcludeSubtree { excluded } => !path_has_prefix(path@, excluded@),
        },
{
    match filter {
        WatchFilter::AcceptAll => true,
        WatchFilter::ExcludeSubtree { excluded } => !path_starts_with(path, excluded.as_str()),
    }
}

/// The directories that must exist before they are watched: the data
/// directory, and the config directory when it is another directory.
pub fn watch_roots_to_create(data_dir: &str, config_local_dir: &str) -> (r: Vec<String>)
    ensures
        r@.map_values(|x: String| x@) == (if same_path(config_local_dir@, data_dir@) {
            seq![data_dir@]
        } else {
            seq![data_dir@, config_local_dir@]
        }),
{
    let mut r: Vec<String> = Vec::new();
    r.push(String::from_str(data_dir));
    if !paths_equal(config_local_dir, data_dir) {
        r.push(String::from_str(config_local_dir));
    }
    proof {
        if same_path(config_local_dir@, data_dir@) {
            assert(r@.map_values(|x: String| x@) =~= seq![data_dir@]);
        } else {
            assert(r@.map_values(|x: String| x@) =~= seq![data_dir@, config_local_dir@]);
        }
    }
    r
}

/// A file reported in a repository update.
#[derive(Debug, Clone)]
pub struct TargetFile {
    pub path: String,
    pub is_ignored: bool,
}

/// A batch of changes under the managed directories.
#[derive(Debug, Clone)]
pub struct RepositoryUpdate {
    pub added: Vec<TargetFile>,
    pub modified: Vec<TargetFile>,
    pub deleted: Vec<TargetFile>,
    /// Moves, as (new location, old location).
    pub moved: Vec<(TargetFile, TargetFile)>,
    pub commit_updated: bool,
    pub index_lock_detected: bool,
    pub remote_ref_updated: bool,
}

pub open spec fn target_paths(s: Seq<TargetFile>) -> Seq<Seq<char>> {
    s.map_values(|t: TargetFile| t.path@)
}

/// The paths of moves, each move giving its new then its old location.
pub open spec fn moved_paths(s: Seq<(TargetFile, TargetFile)>) -> Seq<Seq<char>>
    decreases s.len(),
{
    if s.len() == 0 {
        Seq::empty()
    } else {
        moved_paths(s.drop_last()).push(s.last().0.path@).push(s.last().1.path@)
    }
}

/// Every path an update touches, in order: added, modified, deleted, then
/// both ends of each move.
pub open spec fn update_paths(u: RepositoryUpdate) -> Seq<Seq<char>> {
    target_paths(u.added@) + target_paths(u.modified@) + target_paths(u.deleted@) + moved_paths(
        u.moved@,
    )
}

/// Files reported by the watcher, which are never marked ignored.
pub open spec fn watched_files(paths: Seq<String>) -> Seq<TargetFile> {
    paths.map_values(|p: String| TargetFile { path: p, is_ignored: false })
}

fn to_targets(paths: Vec<String>) -> (r: Vec<TargetFile>)
    ensures
        r@ == watched_files(paths@),
{
    let mut r: Vec<TargetFile> = Vec::new();
    let mut i: usize = 0;
    let n = paths.len();
    while i < n
        invariant
            0 <= i <= n,
            n == paths@.len(),
            r@ == watched_files(paths@.take(i as int)),
        decreases n - i,
    {
        r.push(TargetFile { path: paths[i].clone(), is_ignored: false });
        proof {
            assert(watched_files(paths@.take(i + 1)) =~= watched_files(paths@.take(i as int)).push(
                TargetFile { path: paths@[i as int], is_ignored: false },
            ));
        }
        i = i + 1;
    }
    proof {
        assert(paths@.take(n as int) =~= paths@);
    }
    r
}

impl RepositoryUpdate {
    /// The update for a batch of filesystem changes: every file is reported
    /// as not ignored, and no git state is flagged.
    pub fn from_filesystem_event(
        added: Vec<String>,
        modified: Vec<String>,
        deleted: Vec<String>,
        moved: Vec<(String, String)>,
    ) -> (r: Self)
        ensures
            r.added@ == watched_files(added@),
            r.modified@ == watched_files(modified@),
            r.deleted@ == watched_files(deleted@),
            r.moved@.len() == moved@.len(),
            forall|i: int|
                0 <= i < moved@.len() ==> #[trigger] r.moved@[i] == (
                    TargetFile { path: moved@[i].0, is_ignored: false },
                    TargetFile { path: moved@[i].1, is_ignored: false },
                ),
            !r.commit_updated,
            !r.index_lock_detected,
            !r.remote_ref_updated,
    {
        let mut moved_targets: Vec<(TargetFile, TargetFile)> = Vec::new();
        let mut i: usize = 0;
        let n = moved.len();
        while i < n
            invariant
                0 <= i <= n,
                n == moved@.len(),
                moved_targets@.len() == i,
                forall|j: int|
                    0 <= j < i ==> #[trigger] moved_targets@[j] == (
                        TargetFile { path: moved@[j].0, is_ignored: false },
                        TargetFile { path: moved@[j].1, is_ignored: false },
                    ),
            decreases n - i,
        {
            let to = moved[i].0.clone();
            let from = moved[i].1.clone();
            moved_targets.push(
                (TargetFile { path: to, is_ignored: false }, TargetFile { path: from, is_ignored: false }),
            );
            i = i + 1;
        }
        RepositoryUpdate {
            added: to_targets(added),
            modified: to_targets(modified),
            deleted: to_targets(deleted),
            moved: moved_targets,
            commit_updated: false,
            index_lock_detected: false,
            remote_ref_updated: false,
        }
    }

    /// Whether the update reports nothing at all.
    pub fn is_empty(&self) -> (r: bool)
        ensures
            r == (self.added@.len() == 0 && self.modified@.len() == 0 && self.deleted@.len() == 0
                && self.moved@.len() == 0 && !self.commit_updated && !self.index_lock_detected
                && !self.remote_ref_updated),
    {
        self.added.len() == 0 && self.modified.len() == 0 && self.deleted.len() == 0
            && self.moved.len() == 0 && !self.commit_updated && !self.index_lock_detected
            && !self.remote_ref_updated
    }

    /// Every path the update touches (see [`update_paths`]).
    pub fn paths(&self) -> (r: Vec<String>)
        ensures
            r@.map_values(|x: String| x@) == update_paths(*self),
    {
        let mut r: Vec<String> = Vec::new();
        append_target_paths(&mut r, &self.added);
        append_target_paths(&mut r, &self.modified);
        append_target_paths(&mut r, &self.deleted);
        let ghost base = r@.map_values(|x: String| x@);
        let mut i: usize = 0;
        let n = self.moved.len();
        while i < n
            invariant
                0 <= i <= n,
                n == self.moved@.len(),
                base == target_paths(self.added@) + target_paths(self.modified@) + target_paths(
                    self.deleted@,
                ),
                r@.map_values(|x: String| x@) == base + moved_paths(self.moved@.take(i as int)),
            decreases n - i,
        {
            let ghost before = r@;
            r.push(self.moved[i].0.path.clone());
            r.push(self.moved[i].1.path.clone());
            proof {
                assert(self.moved@.take(i + 1).drop_last() =~= self.moved@.take(i as int));
                assert(r@ =~= before.push(self.moved@[i as int].0.path).push(
                    self.moved@[i as int].1.path,
                ));
                assert(r@.map_values(|x: String| x@) =~= before.map_values(|x: String| x@).push(
                    self.moved@[i as int].0.path@,
                ).push(self.moved@[i as int].1.path@));
                assert(base + moved_paths(self.moved@.take(i + 1)) =~= (base + moved_paths(
                    self.moved@.take(i as int),
                )).push(self.moved@[i as int].0.path@).push(self.moved@[i as int].1.path@));
            }
            i = i + 1;
        }
        proof {
            assert(self.moved@.take(n as int) =~= self.moved@);
        }
        r
    }

    /// Whether the update touches `path` itself.
    pub fn touches_path(&self, path: &str) -> (r: bool)
        ensures
            r == exists|i: int|
                0 <= i < update_paths(*self).len() && same_path(#[trigger] update_paths(*self)[i], path@),
    {
        let all = self.paths();
        let ghost v = all@.map_values(|x: String| x@);
        let mut i: usize = 0;
        while i < all.len()
            invariant
                0 <= i <= all@.len(),
                v == all@.map_values(|x: String| x@),
                v == update_paths(*self),
                forall|j: int| 0 <= j < i ==> !same_path(#[trigger] v[j], path@),
            decreases all@.len() - i,
        {
            if paths_equal(all[i].as_str(), path) {
                assert(same_path(v[i as int], path@));
                return true;
            }
            i = i + 1;
        }
        false
    }

    /// Whether the update touches a path under `prefix`.
    pub fn touches_prefix(&self, prefix: &str) -> (r: bool)
        ensures
            r == exists|i: int|
                0 <= i < update_paths(*self).len() && path_has_prefix(
                    #[trigger] update_paths(*self)[i],
                    prefix@,
                ),
    {
        let all = self.paths();
        let ghost v = all@.map_values(|x: String| x@);
        let mut i: usize = 0;
        while i < all.len()
            invariant
                0 <= i <= all@.len(),
                v == all@.map_values(|x: String| x@),
                v == update_paths(*self),
                forall|j: int| 0 <= j < i ==> !path_has_prefix(#[trigger] v[j], prefix@),
            decreases all@.len() - i,
        {
            if path_starts_with(all[i].as_str(), prefix) {
                assert(path_has_prefix(v[i as int], prefix@));
                return true;
            }
            i = i + 1;
        }
        false
    }
}

fn append_target_paths(r: &mut Vec<String>, files: &Vec<TargetFile>)
    ensures
        final(r)@.map_values(|x: String| x@) == old(r)@.map_values(|x: String| x@) + target_paths(
            files@,
        ),
{
    let ghost start = r@.map_values(|x: String| x@);
    let mut i: usize = 0;
    let n = files.len();
    while i < n
        invariant
            0 <= i <= n,
            n == files@.len(),
            r@.map_values(|x: String| x@) == start + target_paths(files@.take(i as int)),
        decreases n - i,
    {
        let ghost before = r@;
        r.push(files[i].path.clone());
        proof {
            assert(r@ =~= before.push(files@[i as int].path));
            assert(r@.map_values(|x: String| x@) =~= before.map_values(|x: String| x@).push(
                files@[i as int].path@,
            ));
            assert(target_paths(files@.take(i + 1)) =~= target_paths(files@.take(i as int)).push(
                files@[i as int].path@,
            ));
            assert(start + target_paths(files@.take(i + 1)) =~= (start + target_paths(
                files@.take(i as int),
            )).push(files@[i as int].path@));
        }
        i = i + 1;
    }
    proof {
        assert(files@.take(n as int) =~= files@);
    }
}

} // verus!
