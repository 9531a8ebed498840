//! The events that the SQLite writer consumes, and the pure parts of saving
//! and reading the app state: which queued events can be skipped, where the
//! database lives, and how indices are stored in its integer columns.

use std::sync::Arc;

use vstd::prelude::*;

use crate::app_state::{AppState, TabSnapshot};
use crate::auth::PersistedCurrentUserInformation;
use crate::session_mode::{paths_equal, same_path};

verus! {

/// The name of the SQLite database file.
pub const RIFT_SQLITE_FILE_NAME: &'static str = "warp.sqlite";

/// The most command-history rows kept; inserting beyond it evicts the oldest.
pub const COMMANDS_COUNT_LIMIT: i64 = 10000;

/// The serialized contents of a finished block.
#[derive(Clone, Debug, Default, PartialEq)]
pub struct SerializedBlock {
    pub bytes: Vec<u8>,
}

/// A block that finished in a pane and is to be saved.
#[derive(Clone, Debug, PartialEq)]
pub struct BlockCompleted {
    pub pane_id: Vec<u8>,
    pub block: Arc<SerializedBlock>,
    pub is_local: bool,
}

/// A write request for the SQLite writer.
#[derive(Debug, PartialEq)]
pub enum ModelEvent {
    /// Stop writing and delete the database file.
    PauseAndRemoveDatabase,
    /// Shut the writer down.
    Terminate,
    SaveBlock(BlockCompleted),
    DeleteBlocks(Vec<u8>),
    /// The whole app layout; a later snapshot supersedes an earlier one.
    Snapshot(AppState),
    DeleteProject { path: String },
    SetCurrentWorkspace { workspace_uid: String },
    ClearUserProfiles,
    UpsertCurrentUserInformation { user_information: PersistedCurrentUserInformation },
    UpsertMCPServerEnvironmentVariables { mcp_server_uuid: Vec<u8>, environment_variables: String },
}

/// Where a database is kept.
#[derive(Clone, Copy, Debug, PartialEq, Eq, Structural)]
pub enum PersistenceScope {
    /// The app's own database.
    App,
}

pub open spec fn is_snapshot(e: ModelEvent) -> bool {
    e is Snapshot
}

/// The position of the last snapshot in `s`, if any.
pub open spec fn last_snapshot_index(s: Seq<ModelEvent>) -> Option<int>
    decreases s.len(),
{
    if s.len() == 0 {
        None
    } else if is_snapshot(s.last()) {
        Some(s.len() - 1)
    } else {
        last_snapshot_index(s.drop_last())
    }
}

/// `s` without its snapshots.
pub open spec fn drop_snapshots(s: Seq<ModelEvent>) -> Seq<ModelEvent>
    decreases s.len(),
{
    if s.len() == 0 {
        s
    } else {
        let r = drop_snapshots(s.drop_last());
        if is_snapshot(s.last()) {
            r
        } else {
            r.push(s.last())
        }
    }
}

/// `s` with every snapshot removed but the last one, everything else kept in
/// order.
pub open spec fn deduplicated(s: Seq<ModelEvent>) -> Seq<ModelEvent> {
    match last_snapshot_index(s) {
        None => s,
        Some(k) => drop_snapshots(s.take(k)) + s.skip(k),
    }
}

/// The same filtering, stated from the back of the queue.
spec fn deduplicated_from_back(s: Seq<ModelEvent>) -> Seq<ModelEvent>
    decreases s.len(),
{
    if s.len() == 0 {
        s
    } else if is_snapshot(s.last()) {
        drop_snapshots(s.drop_last()).push(s.last())
    } else {
        deduplicated_from_back(s.drop_last()).push(s.last())
    }
}

proof fn lemma_last_snapshot_index_bounds(s: Seq<ModelEvent>)
    ensures
        last_snapshot_index(s) matches Some(k) ==> 0 <= k < s.len() && is_snapshot(s[k]),
        last_snapshot_index(s) is None ==> forall|i: int| 0 <= i < s.len() ==> !is_snapshot(
            #[trigger] s[i],
        ),
    decreases s.len(),
{
    if s.len() > 0 && !is_snapshot(s.last()) {
        lemma_last_snapshot_index_bounds(s.drop_last());
        if last_snapshot_index(s) is None {
            assert forall|i: int| 0 <= i < s.len() implies !is_snapshot(#[trigger] s[i]) by {
                if i < s.len() - 1 {
                    assert(s[i] == s.drop_last()[i]);
                }
            }
        }
    }
}

proof fn lemma_deduplicated_from_back(s: Seq<ModelEvent>)
    ensures
        deduplicated_from_back(s) == deduplicated(s),
    decreases s.len(),
{
    if s.len() == 0 {
    } else if is_snapshot(s.last()) {
        assert(s.take(s.len() - 1) =~= s.drop_last());
        assert(s.skip(s.len() - 1) =~= seq![s.last()]);
        assert(deduplicated(s) =~= drop_snapshots(s.drop_last()).push(s.last()));
    } else {
        let d = s.drop_last();
        lemma_deduplicated_from_back(d);
        lemma_last_snapshot_index_bounds(d);
        match last_snapshot_index(d) {
            None => {
                assert(deduplicated(s) == s);
                assert(d.push(s.last()) =~= s);
            },
            Some(k) => {
                assert(d.take(k) =~= s.take(k));
                assert(d.skip(k).push(s.last()) =~= s.skip(k));
                assert(deduplicated_from_back(s) =~= deduplicated(s));
            },
        }
    }
}

proof fn lemma_drop_snapshots_append(a: Seq<ModelEvent>, b: Seq<ModelEvent>)
    ensures
        drop_snapshots(a + b) == drop_snapshots(a) + drop_snapshots(b),
    decreases b.len(),
{
    if b.len() == 0 {
        assert(a + b =~= a);
        assert(drop_snapshots(a) + drop_snapshots(b) =~= drop_snapshots(a));
    } else {
        lemma_drop_snapshots_append(a, b.drop_last());
        assert((a + b).drop_last() =~= a + b.drop_last());
        assert((a + b).last() == b.last());
        if is_snapshot(b.last()) {
        } else {
            assert(drop_snapshots(a) + drop_snapshots(b.drop_last()).push(b.last()) =~= (
            drop_snapshots(a) + drop_snapshots(b.drop_last())).push(b.last()));
        }
    }
}

proof fn lemma_drop_snapshots_has_none(s: Seq<ModelEvent>)
    ensures
        forall|i: int|
            0 <= i < drop_snapshots(s).len() ==> !is_snapshot(#[trigger] drop_snapshots(s)[i]),
    decreases s.len(),
{
    if s.len() > 0 {
        let d = s.drop_last();
        lemma_drop_snapshots_has_none(d);
        let r = drop_snapshots(s);
        assert forall|i: int| 0 <= i < r.len() implies !is_snapshot(#[trigger] r[i]) by {
            if i < drop_snapshots(d).len() {
                assert(r[i] == drop_snapshots(d)[i]);
            }
        }
    }
}

proof fn lemma_drop_snapshots_of_none(s: Seq<ModelEvent>)
    requires
        forall|i: int| 0 <= i < s.len() ==> !is_snapshot(#[trigger] s[i]),
    ensures
        drop_snapshots(s) == s,
    decreases s.len(),
{
    if s.len() > 0 {
        let d = s.drop_last();
        assert forall|i: int| 0 <= i < d.len() implies !is_snapshot(#[trigger] d[i]) by {
            assert(d[i] == s[i]);
        }
        lemma_drop_snapshots_of_none(d);
        assert(d.push(s.last()) =~= s);
    }
}

proof fn lemma_last_snapshot_index_after(s: Seq<ModelEvent>)
    ensures
        last_snapshot_index(s) matches Some(k) ==> forall|i: int|
            k < i < s.len() ==> !is_snapshot(#[trigger] s[i]),
    decreases s.len(),
{
    if s.len() > 0 && !is_snapshot(s.last()) {
        let d = s.drop_last();
        lemma_last_snapshot_index_after(d);
        lemma_last_snapshot_index_bounds(d);
        if let Some(k) = last_snapshot_index(s) {
            assert forall|i: int| k < i < s.len() implies !is_snapshot(#[trigger] s[i]) by {
                if i < s.len() - 1 {
                    assert(s[i] == d[i]);
                }
            }
        }
    }
}

proof fn lemma_last_snapshot_index_is(s: Seq<ModelEvent>, k: int)
    requires
        0 <= k < s.len(),
        is_snapshot(s[k]),
        forall|i: int| k < i < s.len() ==> !is_snapshot(#[trigger] s[i]),
    ensures
        last_snapshot_index(s) == Some(k),
    decreases s.len(),
{
    if k < s.len() - 1 {
        let d = s.drop_last();
        assert forall|i: int| k < i < d.len() implies !is_snapshot(#[trigger] d[i]) by {
            assert(d[i] == s[i]);
        }
        assert(d[k] == s[k]);
        lemma_last_snapshot_index_is(d, k);
    }
}

/// What the deduplication keeps: the events other than snapshots, all of
/// them and in their order; no snapshot when the batch has none, and
/// otherwise exactly one, the batch's last snapshot, in its place among the
/// other events.
pub proof fn lemma_deduplicated_keeps_last_snapshot(s: Seq<ModelEvent>)
    ensures
        drop_snapshots(deduplicated(s)) == drop_snapshots(s),
        last_snapshot_index(s) is None ==> deduplicated(s) == s,
        last_snapshot_index(s) is None ==> forall|i: int|
            0 <= i < s.len() ==> !is_snapshot(#[trigger] s[i]),
        last_snapshot_index(s) matches Some(k) ==> {
            let j = drop_snapshots(s.take(k)).len() as int;
            &&& 0 <= j < deduplicated(s).len()
            &&& deduplicated(s)[j] == s[k]
            &&& is_snapshot(s[k])
            &&& forall|i: int|
                0 <= i < deduplicated(s).len() && i != j ==> !is_snapshot(
                    #[trigger] deduplicated(s)[i],
                )
        },
{
    lemma_last_snapshot_index_bounds(s);
    lemma_last_snapshot_index_after(s);
    if let Some(k) = last_snapshot_index(s) {
        let a = drop_snapshots(s.take(k));
        let b = s.skip(k);
        let r = deduplicated(s);
        let j = a.len() as int;
        lemma_drop_snapshots_has_none(s.take(k));
        assert(r == a + b);
        assert(r[j] == s[k]);
        assert forall|i: int| 0 <= i < r.len() && i != j implies !is_snapshot(#[trigger] r[i]) by {
            if i < j {
                assert(r[i] == a[i]);
            } else {
                assert(r[i] == s[k + (i - j)]);
            }
        }
        lemma_drop_snapshots_append(a, b);
        lemma_drop_snapshots_of_none(a);
        lemma_drop_snapshots_append(s.take(k), b);
        assert(s.take(k) + b =~= s);
    }
}

/// Deduplicating twice keeps what deduplicating once kept.
pub proof fn lemma_deduplicated_idempotent(s: Seq<ModelEvent>)
    ensures
        deduplicated(deduplicated(s)) == deduplicated(s),
{
    lemma_deduplicated_keeps_last_snapshot(s);
    let r = deduplicated(s);
    if let Some(k) = last_snapshot_index(s) {
        let a = drop_snapshots(s.take(k));
        let j = a.len() as int;
        assert forall|i: int| j < i < r.len() implies !is_snapshot(#[trigger] r[i]) by {}
        lemma_last_snapshot_index_is(r, j);
        lemma_drop_snapshots_has_none(s.take(k));
        assert(r.take(j) =~= a);
        lemma_drop_snapshots_of_none(a);
        assert(a + r.skip(j) =~= r);
    }
}

/// Filters a batch of model events down to the ones that must still be
/// applied: a [`ModelEvent::Snapshot`] holds the entire app state, so only
/// the latest one is kept. All other events keep their order.
pub fn deduplicate_events(events: Vec<ModelEvent>) -> (r: Vec<ModelEvent>)
    ensures
        r@ == deduplicated(events@),
{
    let ghost s = events@;
    let mut rest = events;
    let mut kept_rev: Vec<ModelEvent> = Vec::new();
    let mut seen_snapshot = false;
    while rest.len() > 0
        invariant
            rest@ == s.take(rest@.len() as int),
            rest@.len() <= s.len(),
            deduplicated_from_back(s) == (if seen_snapshot {
                drop_snapshots(rest@)
            } else {
                deduplicated_from_back(rest@)
            }) + kept_rev@.reverse(),
        decreases rest@.len(),
    {
        let ghost before = rest@;
        let e = rest.pop().unwrap();
        proof {
            assert(before.drop_last() =~= rest@);
            assert(rest@ =~= s.take(rest@.len() as int));
        }
        let ghost old_kept = kept_rev@;
        let snap = matches!(e, ModelEvent::Snapshot(_));
        if snap {
            if !seen_snapshot {
                seen_snapshot = true;
                kept_rev.push(e);
                proof {
                    assert(seq![before.last()] + old_kept.reverse() =~= kept_rev@.reverse());
                    assert(drop_snapshots(rest@).push(before.last()) + old_kept.reverse()
                        =~= drop_snapshots(rest@) + kept_rev@.reverse());
                }
            }
        } else {
            kept_rev.push(e);
            proof {
                assert(seq![before.last()] + old_kept.reverse() =~= kept_rev@.reverse());
                if seen_snapshot {
                    assert(drop_snapshots(rest@).push(before.last()) + old_kept.reverse()
                        =~= drop_snapshots(rest@) + kept_rev@.reverse());
                } else {
                    assert(deduplicated_from_back(rest@).push(before.last()) + old_kept.reverse()
                        =~= deduplicated_from_back(rest@) + kept_rev@.reverse());
                }
            }
        }
    }
    proof {
        assert(rest@ =~= Seq::<ModelEvent>::empty());
        assert(drop_snapshots(rest@) =~= Seq::<ModelEvent>::empty());
        assert(deduplicated_from_back(s) =~= kept_rev@.reverse());
        lemma_deduplicated_from_back(s);
    }
    let mut r: Vec<ModelEvent> = Vec::new();
    let ghost target = kept_rev@.reverse();
    while kept_rev.len() > 0
        invariant
            r@ + kept_rev@.reverse() == target,
        decreases kept_rev@.len(),
    {
        let ghost before = kept_rev@;
        let e = kept_rev.pop().unwrap();
        r.push(e);
        proof {
            assert(before.drop_last() =~= kept_rev@);
            assert(before.reverse() =~= seq![e] + kept_rev@.reverse());
            assert(r@ + kept_rev@.reverse() =~= target);
        }
    }
    proof {
        assert(r@ =~= target);
    }
    r
}

/// What the writer thread does with one event.
#[derive(Clone, Copy, Debug, PartialEq, Eq, Structural)]
pub enum WriterAction {
    /// Delete the database file; the writer is paused from now on.
    RemoveDatabase,
    /// Shut the writer thread down.
    Stop,
    /// Drop the event: the writer is paused.
    Ignore,
    /// Write the event to the database.
    Apply,
}

/// The state of the SQLite writer thread.
#[derive(Clone, Copy, Debug, PartialEq, Eq, Structural)]
pub struct WriterState {
    /// Set once the database was removed; no event is written after that.
    pub paused: bool,
}

/// Decides what the writer does with `event`, and updates its state. A
/// paused writer writes nothing, and it stays paused.
pub fn writer_step(state: &mut WriterState, event: &ModelEvent) -> (r: WriterAction)
    ensures
        event is PauseAndRemoveDatabase ==> r == WriterAction::RemoveDatabase && final(state).paused,
        event is Terminate ==> r == WriterAction::Stop && *final(state) == *old(state),
        !(event is PauseAndRemoveDatabase) && !(event is Terminate) ==> {
            &&& *final(state) == *old(state)
            &&& r == (if old(state).paused {
                WriterAction::Ignore
            } else {
                WriterAction::Apply
            })
        },
        old(state).paused ==> final(state).paused,
        final(state).paused ==> r != WriterAction::Apply,
{
    match event {
        ModelEvent::PauseAndRemoveDatabase => {
            state.paused = true;
            WriterAction::RemoveDatabase
        },
        ModelEvent::Terminate => WriterAction::Stop,
        _ => {
            if state.paused {
                WriterAction::Ignore
            } else {
                WriterAction::Apply
            }
        },
    }
}

/// Whether inserting a command must first evict the oldest one: the
/// history is full.
pub fn must_evict_oldest_command(command_count: i64) -> (r: bool)
    ensures
        r == (command_count == COMMANDS_COUNT_LIMIT),
{
    command_count == COMMANDS_COUNT_LIMIT
}

/// The session id as stored in its signed column: `None` when it does not
/// fit.
pub fn session_id_column(id: u64) -> (r: Option<i64>)
    ensures
        id <= i64::MAX ==> r == Some(id as i64),
        id > i64::MAX ==> r is None,
{
    if id <= 9223372036854775807u64 {
        Some(id as i64)
    } else {
        None
    }
}

/// The active tab index as stored in its signed column: 0 when it does not
/// fit.
pub fn active_tab_index_column(index: usize) -> (r: i32)
    ensures
        index <= i32::MAX ==> r == index as i32,
        index > i32::MAX ==> r == 0,
{
    if index <= 2147483647usize {
        index as i32
    } else {
        0
    }
}

/// The active tab index read back from its column: 0 for a negative value.
pub fn active_tab_index_from_column(value: i32) -> (r: usize)
    ensures
        value >= 0 ==> r == value as usize,
        value < 0 ==> r == 0,
{
    if value >= 0 {
        value as usize
    } else {
        0
    }
}

/// The position of the last window whose id is `id`, if any.
pub open spec fn last_index_of(ids: Seq<i32>, id: i32) -> Option<int>
    decreases ids.len(),
{
    if ids.len() == 0 {
        None
    } else if ids.last() == id {
        Some(ids.len() - 1)
    } else {
        last_index_of(ids.drop_last(), id)
    }
}

/// Which of the windows read back, given by their ids in order, is the
/// active one: the one whose id the app row names.
pub fn active_window_index(active_window_id: Option<i32>, window_ids: &Vec<i32>) -> (r: Option<
    usize,
>)
    ensures
        match active_window_id {
            None => r is None,
            Some(id) => match last_index_of(window_ids@, id) {
                Some(k) => r == Some(k as usize),
                None => r is None,
            },
        },
{
    let id = match active_window_id {
        Some(id) => id,
        None => return None,
    };
    let mut r: Option<usize> = None;
    let mut k: usize = 0;
    while k < window_ids.len()
        invariant
            0 <= k <= window_ids@.len(),
            r == match last_index_of(window_ids@.take(k as int), id) {
                Some(j) => Some(j as usize),
                None => None::<usize>,
            },
        decreases window_ids@.len() - k,
    {
        proof {
            assert(window_ids@.take(k + 1).drop_last() =~= window_ids@.take(k as int));
            assert(window_ids@.take(k + 1).last() == window_ids@[k as int]);
        }
        if window_ids[k] == id {
            r = Some(k);
        }
        k = k + 1;
    }
    proof {
        assert(window_ids@.take(k as int) =~= window_ids@);
    }
    r
}

/// A tab index that fits its column reads back as itself.
pub proof fn lemma_active_tab_index_round_trip(index: usize)
    requires
        index <= i32::MAX,
    ensures
        ({
            let stored: i32 = index as i32;
            stored >= 0 && stored as usize == index
        }),
{
}

/// Whether some workspace of `uids` is `uid`.
pub open spec fn has_uid(uids: Seq<String>, uid: Seq<char>) -> bool {
    exists|j: int| 0 <= j < uids.len() && #[trigger] uids[j]@ == uid
}

/// Whether the `k`-th workspace is the selected one after the workspaces
/// were replaced by `uids`: the workspace selected before stays selected
/// when it is still there; when it is gone, the first workspace is
/// selected; when none was selected, none is.
pub open spec fn selected_after_sync(current: Option<Seq<char>>, uids: Seq<String>, k: int) -> bool {
    match current {
        None => false,
        Some(c) => if has_uid(uids, c) {
            uids[k]@ == c
        } else {
            uids[k]@ == uids[0]@
        },
    }
}

/// Which of the workspaces `uids`, as synced, is selected (see
/// [`selected_after_sync`]); `current` is the uid selected before.
pub fn workspace_selection_after_sync(current: Option<&String>, uids: &Vec<String>) -> (r: Vec<
    bool,
>)
    ensures
        r@.len() == uids@.len(),
        forall|k: int|
            0 <= k < uids@.len() ==> #[trigger] r@[k] == selected_after_sync(
                match current {
                    Some(c) => Some(c@),
                    None => None,
                },
                uids@,
                k,
            ),
{
    let ghost cur = match current {
        Some(c) => Some(c@),
        None => None::<Seq<char>>,
    };
    let n = uids.len();
    let mut r: Vec<bool> = Vec::new();
    let c = match current {
        Some(c) => c,
        None => {
            let mut k: usize = 0;
            while k < n
                invariant
                    0 <= k <= n,
                    n == uids@.len(),
                    r@.len() == k,
                    cur is None,
                    forall|j: int| 0 <= j < k ==> !(#[trigger] r@[j]),
                decreases n - k,
            {
                r.push(false);
                k = k + 1;
            }
            return r;
        },
    };
    let mut present = false;
    let mut j: usize = 0;
    while j < n
        invariant
            0 <= j <= n,
            n == uids@.len(),
            present == exists|m: int| 0 <= m < j && #[trigger] uids@[m]@ == c@,
        decreases n - j,
    {
        if uids[j] == *c {
            present = true;
        }
        j = j + 1;
    }
    let mut k: usize = 0;
    while k < n
        invariant
            0 <= k <= n,
            n == uids@.len(),
            r@.len() == k,
            cur == Some(c@),
            present == has_uid(uids@, c@),
            forall|m: int| 0 <= m < k ==> #[trigger] r@[m] == selected_after_sync(cur, uids@, m),
        decreases n - k,
    {
        let selected = if present {
            uids[k] == *c
        } else {
            uids[k] == uids[0]
        };
        r.push(selected);
        k = k + 1;
    }
    r
}

/// Which of the workspaces `uids` is selected after the workspace `uid`
/// was made the current one: exactly the workspaces with that uid.
pub fn workspace_selection_after_set(uid: &String, uids: &Vec<String>) -> (r: Vec<bool>)
    ensures
        r@.len() == uids@.len(),
        forall|k: int| 0 <= k < uids@.len() ==> #[trigger] r@[k] == (uids@[k]@ == uid@),
{
    let n = uids.len();
    let mut r: Vec<bool> = Vec::new();
    let mut k: usize = 0;
    while k < n
        invariant
            0 <= k <= n,
            n == uids@.len(),
            r@.len() == k,
            forall|m: int| 0 <= m < k ==> #[trigger] r@[m] == (uids@[m]@ == uid@),
        decreases n - k,
    {
        r.push(uids[k] == *uid);
        k = k + 1;
    }
    r
}

/// After a sync, at most the workspaces sharing one uid are selected, and
/// one is whenever one was selected before and the sync brought any.
pub proof fn lemma_sync_keeps_a_selection(current: Option<Seq<char>>, uids: Seq<String>)
    ensures
        forall|a: int, b: int|
            0 <= a < uids.len() && 0 <= b < uids.len() && selected_after_sync(current, uids, a)
                && selected_after_sync(current, uids, b) ==> uids[a]@ == uids[b]@,
        current is Some && uids.len() > 0 ==> exists|k: int|
            0 <= k < uids.len() && #[trigger] selected_after_sync(current, uids, k),
{
    if let Some(c) = current {
        if uids.len() > 0 {
            if has_uid(uids, c) {
                let j = choose|j: int| 0 <= j < uids.len() && #[trigger] uids[j]@ == c;
                assert(selected_after_sync(current, uids, j));
            } else {
                assert(selected_after_sync(current, uids, 0));
            }
        }
    }
}

/// Whether a restored window shows its left panel: as stored, or, for rows
/// saved before that was stored, whether its active tab (the tab at
/// `active_tab_index`, if there is one) has a left panel.
pub fn restored_left_panel_open(
    stored: Option<bool>,
    tabs: &Vec<TabSnapshot>,
    active_tab_index: usize,
) -> (r: bool)
    ensures
        r == match stored {
            Some(open) => open,
            None => active_tab_index < tabs@.len() && tabs@[active_tab_index as int].left_panel
                is Some,
        },
{
    match stored {
        Some(open) => open,
        None => active_tab_index < tabs.len() && tabs[active_tab_index].left_panel.is_some(),
    }
}

/// Where the database of a scope is kept: a directory and the file in it.
#[derive(Clone, Debug, PartialEq)]
pub struct DatabaseLocation {
    pub directory: String,
    pub file_name: String,
}

/// Where the database of `scope` is kept: in the secure state directory
/// when the platform has one, in the state directory otherwise, under
/// [`RIFT_SQLITE_FILE_NAME`].
pub fn database_file_path_for_scope(
    scope: &PersistenceScope,
    secure_state_dir: Option<String>,
    state_dir: String,
) -> (r: DatabaseLocation)
    ensures
        r.directory@ == (match secure_state_dir {
            Some(d) => d@,
            None => state_dir@,
        }),
        r.file_name@ == RIFT_SQLITE_FILE_NAME@,
{
    match scope {
        PersistenceScope::App => {
            let directory = match secure_state_dir {
                Some(d) => d,
                None => state_dir,
            };
            DatabaseLocation { directory, file_name: String::from_str(RIFT_SQLITE_FILE_NAME) }
        },
    }
}


/// The path `path` with its extension replaced by `ext`, as
/// `std::path::Path::with_extension` builds it.
pub uninterp spec fn path_with_extension(path: Seq<char>, ext: Seq<char>) -> Seq<char>;

/// Whether `s` holds a character that separates path components on some
/// platform (`/`, and the backslash on Windows).
pub open spec fn has_path_separator(s: Seq<char>) -> bool {
    s.contains('/') || s.contains('\\')
}

/// Calls `std::path::Path::with_extension` and turns the result back into a
/// string. The call panics when the extension holds a path separator, so
/// such extensions are excluded. The contract claims only that the result is
/// the named path.
#[verifier::external_body]
fn with_extension(path: &str, ext: &str) -> (r: String)
    requires
        !has_path_separator(ext@),
    ensures
        r@ == path_with_extension(path@, ext@),
{
    std::path::Path::new(path).with_extension(ext).to_string_lossy().into_owned()
}

/// A file to rename. When `missing_is_error` is false, a source that does
/// not exist is no error; when it is true and the rename fails, the moves
/// after it are not attempted.
#[derive(Clone, Debug, PartialEq)]
pub struct FileMove {
    pub from: String,
    pub to: String,
    pub missing_is_error: bool,
}

/// A move seen as (from, to, missing_is_error).
pub open spec fn move_view(m: FileMove) -> (Seq<char>, Seq<char>, bool) {
    (m.from@, m.to@, m.missing_is_error)
}

/// The renames that bring a database left at `old_db_path` (outside the
/// application's container) to `db_path`: none when the two are the same
/// path, when there is nothing at the old path, or when a database already
/// exists at the new one; otherwise the database itself, then its
/// write-ahead log and shared-memory files, which may be missing.
pub open spec fn legacy_database_moves_spec(
    old_db_path: Seq<char>,
    db_path: Seq<char>,
    old_exists: bool,
    new_exists: bool,
) -> Seq<(Seq<char>, Seq<char>, bool)> {
    if same_path(old_db_path, db_path) || !old_exists || new_exists {
        Seq::empty()
    } else {
        seq![
            (old_db_path, db_path, true),
            (
                path_with_extension(old_db_path, "sqlite-wal"@),
                path_with_extension(db_path, "sqlite-wal"@),
                false,
            ),
            (
                path_with_extension(old_db_path, "sqlite-shm"@),
                path_with_extension(db_path, "sqlite-shm"@),
                false,
            ),
        ]
    }
}

/// The renames that migrate a legacy database (see
/// [`legacy_database_moves_spec`]).
pub fn legacy_database_moves(
    old_db_path: &str,
    db_path: &str,
    old_exists: bool,
    new_exists: bool,
) -> (r: Vec<FileMove>)
    ensures
        r@.map_values(|m: FileMove| move_view(m)) == legacy_database_moves_spec(
            old_db_path@,
            db_path@,
            old_exists,
            new_exists,
        ),
{
    let mut r: Vec<FileMove> = Vec::new();
    if paths_equal(old_db_path, db_path) || !old_exists || new_exists {
        proof {
            assert(r@.map_values(|m: FileMove| move_view(m)) =~= Seq::empty());
        }
        return r;
    }
    r.push(
        FileMove {
            from: String::from_str(old_db_path),
            to: String::from_str(db_path),
            missing_is_error: true,
        },
    );
    proof {
        reveal_strlit("sqlite-wal");
        reveal_strlit("sqlite-shm");
        assert(!"sqlite-wal"@.contains('/') && !"sqlite-wal"@.contains('\\'));
        assert(!"sqlite-shm"@.contains('/') && !"sqlite-shm"@.contains('\\'));
    }
    r.push(
        FileMove {
            from: with_extension(old_db_path, "sqlite-wal"),
            to: with_extension(db_path, "sqlite-wal"),
            missing_is_error: false,
        },
    );
    r.push(
        FileMove {
            from: with_extension(old_db_path, "sqlite-shm"),
            to: with_extension(db_path, "sqlite-shm"),
            missing_is_error: false,
        },
    );
    proof {
        assert(r@.map_values(|m: FileMove| move_view(m)) =~= legacy_database_moves_spec(
            old_db_path@,
            db_path@,
            old_exists,
            new_exists,
        ));
    }
    r
}

} // verus!
