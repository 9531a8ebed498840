//! The pane tree of a tab as rows of the pane-node table, and back.
//!
//! Saving walks the tree breadth-first and writes one row per node, each
//! row naming the row of its parent split and its flex within that split;
//! leaves whose contents are not persisted get no row. Reading rebuilds the
//! tree from the rows: the children of a split are the rows naming it as
//! parent, in the order they were written. Rows are numbered in the order
//! they are written, which is the order of their database ids.

use std::collections::VecDeque;

use vstd::prelude::*;

use crate::app_state::{
    BranchSnapshot, LeafContents, LeafSnapshot, PaneFlex, PaneNodeSnapshot, SettingsPaneSnapshot,
    ShellLaunchData, SplitDirection, TerminalPaneSnapshot,
};

verus! {

/// What the database keeps of a pane's contents.
#[derive(Debug, PartialEq)]
pub enum StoredPane {
    Terminal {
        uuid: Vec<u8>,
        cwd: Option<String>,
        is_active: bool,
        shell_launch_data: Option<ShellLaunchData>,
        active_profile_id: Option<String>,
    },
    Settings { current_page: String },
    GetStarted,
    Welcome { startup_directory: Option<String> },
}

/// What the database keeps of a leaf pane.
#[derive(Debug, PartialEq)]
pub struct StoredLeaf {
    pub is_focused: bool,
    pub custom_vertical_tabs_title: Option<String>,
    pub pane: StoredPane,
}

/// What a row of the pane-node table describes.
#[derive(Debug, PartialEq)]
pub enum PaneNodeKind {
    /// A split; `horizontal` is its direction.
    Branch { horizontal: bool },
    Leaf(StoredLeaf),
}

/// A row of the pane-node table of a tab.
#[derive(Debug, PartialEq)]
pub struct PaneNodeRow {
    /// The row of the parent split; `None` for the root.
    pub parent: Option<usize>,
    /// The flex factor within the parent split; `None` for the root.
    pub flex: Option<PaneFlex>,
    pub kind: PaneNodeKind,
}

/// The pane tree with each split's children as a sequence.
pub enum TreeView {
    Leaf(LeafSnapshot),
    Branch { direction: SplitDirection, children: Seq<(PaneFlex, TreeView)> },
}

/// The tree of `n`.
pub open spec fn tree_view(n: PaneNodeSnapshot) -> TreeView
    decreases n,
{
    match n {
        PaneNodeSnapshot::Leaf(l) => TreeView::Leaf(l),
        PaneNodeSnapshot::Branch(b) => TreeView::Branch {
            direction: b.direction,
            children: Seq::new(
                b.children@.len(),
                |i: int|
                    if 0 <= i < b.children@.len() {
                        (b.children@[i].0, tree_view(b.children@[i].1))
                    } else {
                        (PaneFlex(0), TreeView::Leaf(LeafSnapshot {
                            is_focused: false,
                            custom_vertical_tabs_title: None,
                            contents: LeafContents::GetStarted,
                        }))
                    },
            ),
        },
    }
}

/// What the database keeps of a leaf; `None` for contents that are not
/// persisted.
pub open spec fn stored_leaf(l: LeafSnapshot) -> Option<StoredLeaf> {
    let pane = match l.contents {
        LeafContents::Terminal(t) => Some(
            StoredPane::Terminal {
                uuid: t.uuid,
                cwd: t.cwd,
                is_active: t.is_active,
                shell_launch_data: t.shell_launch_data,
                active_profile_id: t.active_profile_id,
            },
        ),
        LeafContents::Settings(SettingsPaneSnapshot::Local { current_page, .. }) => Some(
            StoredPane::Settings { current_page },
        ),
        LeafContents::GetStarted => Some(StoredPane::GetStarted),
        LeafContents::Welcome { startup_directory } => Some(
            StoredPane::Welcome { startup_directory },
        ),
        LeafContents::NetworkLog => None,
    };
    match pane {
        Some(p) => Some(
            StoredLeaf {
                is_focused: l.is_focused,
                custom_vertical_tabs_title: l.custom_vertical_tabs_title,
                pane: p,
            },
        ),
        None => None,
    }
}

/// The leaf read back from what the database keeps: a terminal comes back
/// writable and a settings pane without its search query.
pub open spec fn restored_leaf(s: StoredLeaf) -> LeafSnapshot {
    LeafSnapshot {
        is_focused: s.is_focused,
        custom_vertical_tabs_title: s.custom_vertical_tabs_title,
        contents: match s.pane {
            StoredPane::Terminal { uuid, cwd, is_active, shell_launch_data, active_profile_id } =>
                LeafContents::Terminal(
                TerminalPaneSnapshot {
                    uuid,
                    cwd,
                    is_active,
                    is_read_only: false,
                    shell_launch_data,
                    active_profile_id,
                },
            ),
            StoredPane::Settings { current_page } => LeafContents::Settings(
                SettingsPaneSnapshot::Local { current_page, search_query: None },
            ),
            StoredPane::GetStarted => LeafContents::GetStarted,
            StoredPane::Welcome { startup_directory } => LeafContents::Welcome {
                startup_directory,
            },
        },
    }
}

/// What the row of a node describes; `None` for a leaf that gets no row.
pub open spec fn node_kind(t: TreeView) -> Option<PaneNodeKind> {
    match t {
        TreeView::Leaf(l) => match stored_leaf(l) {
            Some(s) => Some(PaneNodeKind::Leaf(s)),
            None => None,
        },
        TreeView::Branch { direction, .. } => Some(
            PaneNodeKind::Branch { horizontal: direction == SplitDirection::Horizontal },
        ),
    }
}

/// The number of nodes of `t`.
pub open spec fn tree_size(t: TreeView) -> nat
    decreases t, 1nat,
{
    match t {
        TreeView::Leaf(_) => 1,
        TreeView::Branch { children, .. } => 1 + forest_size(children),
    }
}

/// The number of nodes of the trees of `c`.
pub open spec fn forest_size(c: Seq<(PaneFlex, TreeView)>) -> nat
    decreases c, 0nat,
{
    if c.len() == 0 {
        0
    } else {
        forest_size(c.drop_last()) + tree_size(c.last().1)
    }
}

/// A node waiting to be written: the node, the row of its parent, and its
/// flex within the parent.
pub type PendingNode = (TreeView, Option<usize>, Option<PaneFlex>);

/// The number of nodes still to visit.
pub open spec fn queue_size(q: Seq<PendingNode>) -> nat
    decreases q.len(),
{
    if q.len() == 0 {
        0
    } else {
        queue_size(q.drop_last()) + tree_size(q.last().0)
    }
}

/// The children of a split whose row is `parent`, as pending nodes.
pub open spec fn child_items(c: Seq<(PaneFlex, TreeView)>, parent: usize) -> Seq<PendingNode> {
    Seq::new(c.len(), |i: int| (c[i].1, Some(parent), Some(c[i].0)))
}

pub proof fn lemma_queue_size_append(a: Seq<PendingNode>, b: Seq<PendingNode>)
    ensures
        queue_size(a + b) == queue_size(a) + queue_size(b),
    decreases b.len(),
{
    if b.len() == 0 {
        assert(a + b =~= a);
    } else {
        lemma_queue_size_append(a, b.drop_last());
        assert((a + b).drop_last() =~= a + b.drop_last());
    }
}

pub proof fn lemma_child_items_size(c: Seq<(PaneFlex, TreeView)>, parent: usize)
    ensures
        queue_size(child_items(c, parent)) == forest_size(c),
    decreases c.len(),
{
    if c.len() > 0 {
        lemma_child_items_size(c.drop_last(), parent);
        assert(child_items(c, parent).drop_last() =~= child_items(c.drop_last(), parent));
    }
}

pub proof fn lemma_queue_size_pop(q: Seq<PendingNode>)
    requires
        q.len() > 0,
    ensures
        queue_size(q) == tree_size(q[0].0) + queue_size(q.drop_first()),
{
    let one = seq![q[0]];
    lemma_queue_size_append(one, q.drop_first());
    assert(one + q.drop_first() =~= q);
    assert(one.drop_last() =~= Seq::<PendingNode>::empty());
    assert(queue_size(one.drop_last()) == 0);
    assert(one.last() == q[0]);
    assert(queue_size(one) == tree_size(q[0].0));
}

/// The rows written for the pending nodes `q`, breadth-first, when `b`
/// rows were written before them.
pub open spec fn bfs_rows(q: Seq<PendingNode>, b: usize) -> Seq<PaneNodeRow>
    decreases queue_size(q),
{
    if q.len() == 0 {
        Seq::empty()
    } else {
        let (t, parent, flex) = q[0];
        let rest = q.drop_first();
        proof {
            lemma_queue_size_pop(q);
        }
        match node_kind(t) {
            None => bfs_rows(rest, b),
            Some(kind) => {
                let kids = match t {
                    TreeView::Branch { children, .. } => child_items(children, b),
                    TreeView::Leaf(_) => Seq::empty(),
                };
                proof {
                    lemma_queue_size_append(rest, kids);
                    if let TreeView::Branch { children, .. } = t {
                        lemma_child_items_size(children, b);
                    }
                }
                if b == usize::MAX {
                    seq![PaneNodeRow { parent, flex, kind }]
                } else {
                    seq![PaneNodeRow { parent, flex, kind }] + bfs_rows(rest + kids, (b + 1) as usize)
                }
            },
        }
    }
}

/// The pending nodes of a queue of owned nodes.
pub open spec fn queue_view(q: Seq<(PaneNodeSnapshot, Option<usize>, Option<PaneFlex>)>) -> Seq<
    PendingNode,
> {
    q.map_values(|x: (PaneNodeSnapshot, Option<usize>, Option<PaneFlex>)| (tree_view(x.0), x.1, x.2))
}

/// What the database keeps of `l`.
pub fn store_leaf(l: LeafSnapshot) -> (r: Option<StoredLeaf>)
    ensures
        r == stored_leaf(l),
{
    let LeafSnapshot { is_focused, custom_vertical_tabs_title, contents } = l;
    let pane = match contents {
        LeafContents::Terminal(t) => StoredPane::Terminal {
            uuid: t.uuid,
            cwd: t.cwd,
            is_active: t.is_active,
            shell_launch_data: t.shell_launch_data,
            active_profile_id: t.active_profile_id,
        },
        LeafContents::Settings(SettingsPaneSnapshot::Local { current_page, .. }) => {
            StoredPane::Settings { current_page }
        },
        LeafContents::GetStarted => StoredPane::GetStarted,
        LeafContents::Welcome { startup_directory } => StoredPane::Welcome { startup_directory },
        LeafContents::NetworkLog => {
            return None;
        },
    };
    Some(StoredLeaf { is_focused, custom_vertical_tabs_title, pane })
}

/// The leaf read back from what the database keeps of it.
pub fn restore_leaf(s: StoredLeaf) -> (r: LeafSnapshot)
    ensures
        r == restored_leaf(s),
{
    let StoredLeaf { is_focused, custom_vertical_tabs_title, pane } = s;
    let contents = match pane {
        StoredPane::Terminal { uuid, cwd, is_active, shell_launch_data, active_profile_id } =>
            LeafContents::Terminal(
            TerminalPaneSnapshot {
                uuid,
                cwd,
                is_active,
                is_read_only: false,
                shell_launch_data,
                active_profile_id,
            },
        ),
        StoredPane::Settings { current_page } => LeafContents::Settings(
            SettingsPaneSnapshot::Local { current_page, search_query: None },
        ),
        StoredPane::GetStarted => LeafContents::GetStarted,
        StoredPane::Welcome { startup_directory } => LeafContents::Welcome { startup_directory },
    };
    LeafSnapshot { is_focused, custom_vertical_tabs_title, contents }
}

/// The rows of the pane-node table for the tree `root`, written
/// breadth-first; a leaf whose contents are not persisted gets no row (and,
/// for the root, the tree gets none).
pub fn pane_node_rows(root: PaneNodeSnapshot) -> (r: Vec<PaneNodeRow>)
    requires
        tree_size(tree_view(root)) < usize::MAX,
    ensures
        r@ == bfs_rows(seq![(tree_view(root), None::<usize>, None::<PaneFlex>)], 0),
{
    let ghost total = tree_size(tree_view(root));
    let ghost target = bfs_rows(seq![(tree_view(root), None::<usize>, None::<PaneFlex>)], 0);
    let mut rows: Vec<PaneNodeRow> = Vec::new();
    let mut queue: VecDeque<(PaneNodeSnapshot, Option<usize>, Option<PaneFlex>)> = VecDeque::new();
    queue.push_back((root, None, None));
    proof {
        assert(queue_view(queue@) =~= seq![(tree_view(root), None::<usize>, None::<PaneFlex>)]);
        let one = queue_view(queue@);
        assert(one.drop_last() =~= Seq::<PendingNode>::empty());
        assert(queue_size(one.drop_last()) == 0);
        assert(one.last().0 == tree_view(root));
        assert(queue_size(one) == total);
        assert(rows@ + target =~= target);
    }
    while queue.len() > 0
        invariant
            rows@ + bfs_rows(queue_view(queue@), rows@.len() as usize) == target,
            rows@.len() + queue_size(queue_view(queue@)) <= total,
            total < usize::MAX,
        decreases queue_size(queue_view(queue@)),
    {
        let ghost q = queue_view(queue@);
        let ghost b = rows@.len() as usize;
        let item = queue.pop_front().unwrap();
        let (node, parent, flex) = item;
        proof {
            assert(queue_view(queue@) =~= q.drop_first());
            lemma_queue_size_pop(q);
            assert(q[0] == (tree_view(node), parent, flex));
        }
        match node {
            PaneNodeSnapshot::Leaf(l) => {
                let ghost t = tree_view(PaneNodeSnapshot::Leaf(l));
                match store_leaf(l) {
                    None => {
                        proof {
                            assert(node_kind(t) is None);
                            assert(bfs_rows(q, b) == bfs_rows(q.drop_first(), b));
                        }
                    },
                    Some(s) => {
                        let ghost before = rows@;
                        let row = PaneNodeRow { parent, flex, kind: PaneNodeKind::Leaf(s) };
                        proof {
                            assert(node_kind(t) == Some(PaneNodeKind::Leaf(s)));
                            assert(b < usize::MAX);
                            assert(q.drop_first() + Seq::<PendingNode>::empty() =~= q.drop_first());
                            assert(bfs_rows(q, b) == seq![row] + bfs_rows(
                                q.drop_first(),
                                (b + 1) as usize,
                            ));
                        }
                        rows.push(row);
                        proof {
                            assert(rows@ =~= before + seq![row]);
                            assert(before + bfs_rows(q, b) =~= rows@ + bfs_rows(
                                q.drop_first(),
                                (b + 1) as usize,
                            ));
                        }
                    },
                }
            },
            PaneNodeSnapshot::Branch(br) => {
                let ghost t = tree_view(PaneNodeSnapshot::Branch(br));
                let ghost before = rows@;
                let ghost kids = child_items(t->children, b);
                let BranchSnapshot { direction, children } = br;
                let horizontal = match direction {
                    SplitDirection::Horizontal => true,
                    SplitDirection::Vertical => false,
                };
                let idx = rows.len();
                let row = PaneNodeRow { parent, flex, kind: PaneNodeKind::Branch { horizontal } };
                proof {
                    assert(node_kind(t) == Some(PaneNodeKind::Branch { horizontal }));
                    assert(b < usize::MAX);
                    assert(bfs_rows(q, b) == seq![row] + bfs_rows(
                        q.drop_first() + kids,
                        (b + 1) as usize,
                    ));
                    lemma_queue_size_append(q.drop_first(), kids);
                    lemma_child_items_size(t->children, b);
                }
                rows.push(row);
                let ghost rest = queue_view(queue@);
                let mut ch = children;
                let ghost all_kids = ch@;
                let n_kids = ch.len();
                let mut k: usize = 0;
                proof {
                    assert(all_kids.len() == n_kids);
                    assert(all_kids.skip(0) =~= all_kids);
                    assert(child_items(t->children, b).take(0) =~= Seq::<PendingNode>::empty());
                    assert(rest + Seq::<PendingNode>::empty() =~= rest);
                }
                while ch.len() > 0
                    invariant
                        ch@ == all_kids.skip(k as int),
                        k <= all_kids.len(),
                        all_kids.len() <= usize::MAX,
                        queue_view(queue@) == rest + child_items(
                            t->children,
                            b,
                        ).take(k as int),
                        t->children == Seq::new(
                            all_kids.len(),
                            |i: int| (all_kids[i].0, tree_view(all_kids[i].1)),
                        ),
                        idx == b,
                    decreases ch@.len(),
                {
                    let (f, c) = ch.remove(0);
                    let ghost qb = queue@;
                    queue.push_back((c, Some(idx), Some(f)));
                    proof {
                        assert(all_kids[k as int] == (f, c));
                        assert(queue_view(queue@) =~= queue_view(qb).push(
                            (tree_view(c), Some(idx), Some(f)),
                        ));
                        assert(child_items(t->children, b).take(k + 1) =~= child_items(
                            t->children,
                            b,
                        ).take(k as int).push((tree_view(c), Some(idx), Some(f))));
                    }
                    k = k + 1;
                }
                proof {
                    assert(k == all_kids.len());
                    assert(child_items(t->children, b).take(k as int) =~= kids);
                    assert(rows@ =~= before + seq![row]);
                    assert(before + bfs_rows(q, b) =~= rows@ + bfs_rows(
                        queue_view(queue@),
                        (b + 1) as usize,
                    ));
                }
            },
        }
    }
    proof {
        assert(queue_view(queue@) =~= Seq::<PendingNode>::empty());
        assert(rows@ + Seq::<PaneNodeRow>::empty() =~= rows@);
    }
    rows
}

/// The bits of `1.0f32`, the flex of a pane whose row stores none.
pub const DEFAULT_PANE_FLEX_BITS: u32 = 0x3f80_0000;

/// The flex a row gives its pane.
pub open spec fn flex_or_default(f: Option<PaneFlex>) -> PaneFlex {
    match f {
        Some(x) => x,
        None => PaneFlex(DEFAULT_PANE_FLEX_BITS),
    }
}

/// The tree read back from row `i` of `rows`.
pub open spec fn read_view(rows: Seq<PaneNodeRow>, i: int) -> TreeView
    decreases rows.len() - i, rows.len() - i,
{
    if !(0 <= i < rows.len()) {
        TreeView::Branch { direction: SplitDirection::Vertical, children: Seq::empty() }
    } else {
        match rows[i].kind {
            PaneNodeKind::Leaf(s) => TreeView::Leaf(restored_leaf(s)),
            PaneNodeKind::Branch { horizontal } => TreeView::Branch {
                direction: if horizontal {
                    SplitDirection::Horizontal
                } else {
                    SplitDirection::Vertical
                },
                children: kids_view(rows, i, i + 1),
            },
        }
    }
}

/// The children read back for the split in row `i`, from the rows at `j`
/// and after that name it as their parent, in row order.
pub open spec fn kids_view(rows: Seq<PaneNodeRow>, i: int, j: int) -> Seq<(PaneFlex, TreeView)>
    decreases rows.len() - i, rows.len() - j,
{
    if !(0 <= i < j < rows.len()) {
        Seq::empty()
    } else {
        let rest = kids_view(rows, i, j + 1);
        if rows[j].parent == Some(i as usize) {
            seq![(flex_or_default(rows[j].flex), read_view(rows, j))] + rest
        } else {
            rest
        }
    }
}

/// The first row without a parent, from `j` on: the root of the tree.
pub open spec fn first_root(rows: Seq<PaneNodeRow>, j: int) -> Option<int>
    decreases rows.len() - j,
{
    if !(0 <= j < rows.len()) {
        None
    } else if rows[j].parent is None {
        Some(j)
    } else {
        first_root(rows, j + 1)
    }
}

/// The children of a split, as trees.
pub open spec fn forest_view(c: Seq<(PaneFlex, PaneNodeSnapshot)>) -> Seq<(PaneFlex, TreeView)> {
    Seq::new(c.len(), |k: int| (c[k].0, tree_view(c[k].1)))
}

/// Whether the node built for row `j` was already handed to its parent
/// split once the rows from `i` on are read.
pub open spec fn handed_to_parent(rows: Seq<PaneNodeRow>, i: int, j: int) -> bool {
    rows[j].parent matches Some(p) && i <= p < j && rows[p as int].kind is Branch
}

/// Takes the node at `j` out of `v`.
fn take_at(v: &mut Vec<Option<PaneNodeSnapshot>>, j: usize) -> (r: Option<PaneNodeSnapshot>)
    requires
        j < old(v)@.len(),
    ensures
        r == old(v)@[j as int],
        final(v)@ == old(v)@.update(j as int, None),
{
    let mut out: Option<PaneNodeSnapshot> = None;
    std::mem::swap(&mut out, &mut v[j]);
    out
}

/// Rebuilds the pane tree of a tab from its rows: the root is the first
/// row without a parent, and the children of a split are the rows naming
/// it as parent, in row order. `None` when no row is a root.
pub fn read_pane_tree(rows: Vec<PaneNodeRow>) -> (r: Option<PaneNodeSnapshot>)
    ensures
        match first_root(rows@, 0) {
            Some(i) => r matches Some(t) && tree_view(t) == read_view(rows@, i),
            None => r is None,
        },
{
    let ghost all = rows@;
    let n = rows.len();
    let mut parents: Vec<Option<usize>> = Vec::new();
    let mut flexes: Vec<Option<PaneFlex>> = Vec::new();
    let mut built: Vec<Option<PaneNodeSnapshot>> = Vec::new();
    let mut k: usize = 0;
    while k < n
        invariant
            0 <= k <= n,
            n == rows@.len(),
            rows@ == all,
            parents@.len() == k,
            flexes@.len() == k,
            built@.len() == k,
            forall|j: int| 0 <= j < k ==> parents@[j] == all[j].parent,
            forall|j: int| 0 <= j < k ==> flexes@[j] == all[j].flex,
            forall|j: int| 0 <= j < k ==> built@[j] is None,
        decreases n - k,
    {
        parents.push(rows[k].parent);
        flexes.push(rows[k].flex);
        built.push(None);
        k = k + 1;
    }
    let mut remaining = rows;
    let mut i: usize = n;
    while i > 0
        invariant
            0 <= i <= n,
            n == all.len(),
            remaining@ == all.take(i as int),
            all == rows@,
            parents@.len() == n,
            flexes@.len() == n,
            built@.len() == n,
            forall|j: int| 0 <= j < n ==> parents@[j] == all[j].parent,
            forall|j: int| 0 <= j < n ==> flexes@[j] == all[j].flex,
            forall|j: int| 0 <= j < i ==> built@[j] is None,
            forall|j: int|
                #![trigger built@[j]]
                i <= j < n ==> if handed_to_parent(all, i as int, j) {
                    built@[j] is None
                } else {
                    built@[j] matches Some(x) && tree_view(x) == read_view(all, j)
                },
        decreases i,
    {
        i = i - 1;
        let ghost before = remaining@;
        let row = remaining.pop().unwrap();
        proof {
            assert(before.drop_last() =~= all.take(i as int));
            assert(row == all[i as int]);
        }
        let PaneNodeRow { parent: _, flex: _, kind } = row;
        let node = match kind {
            PaneNodeKind::Leaf(s) => PaneNodeSnapshot::Leaf(restore_leaf(s)),
            PaneNodeKind::Branch { horizontal } => {
                let mut children: Vec<(PaneFlex, PaneNodeSnapshot)> = Vec::new();
                let mut j: usize = i + 1;
                proof {
                    assert(all[i as int].kind is Branch);
                    assert(forest_view(children@) =~= Seq::<(PaneFlex, TreeView)>::empty());
                    assert(forest_view(children@) + kids_view(all, i as int, j as int) =~= kids_view(
                        all,
                        i as int,
                        i + 1,
                    ));
                }
                while j < n
                    invariant
                        i < j <= n,
                        n == all.len(),
                        parents@.len() == n,
                        flexes@.len() == n,
                        built@.len() == n,
                        forall|m: int| 0 <= m < n ==> parents@[m] == all[m].parent,
                        forall|m: int| 0 <= m < n ==> flexes@[m] == all[m].flex,
                        forall|m: int| 0 <= m <= i ==> built@[m] is None,
                        all[i as int].kind is Branch,
                        forall|m: int|
                            #![trigger built@[m]]
                            i < m < n ==> if handed_to_parent(all, i as int, m) && m < j {
                                built@[m] is None
                            } else if handed_to_parent(all, i + 1, m) {
                                built@[m] is None
                            } else {
                                built@[m] matches Some(x) && tree_view(x) == read_view(all, m)
                            },
                        forest_view(children@) + kids_view(all, i as int, j as int) == kids_view(
                            all,
                            i as int,
                            i + 1,
                        ),
                    decreases n - j,
                {
                    if parents[j] == Some(i) {
                        let ghost b = built@;
                        proof {
                            assert(parents@[j as int] == Some(i));
                            assert(all[j as int].parent == Some(i));
                            assert(!handed_to_parent(all, i + 1, j as int));
                            assert(!(handed_to_parent(all, i as int, j as int) && j < j));
                            assert(i < j < n);
                            assert(built@[j as int] is Some);
                            assert(b[j as int] matches Some(x) && tree_view(x) == read_view(
                                all,
                                j as int,
                            ));
                        }
                        let x = take_at(&mut built, j);
                        let c = x.unwrap();
                        let f = match flexes[j] {
                            Some(f) => f,
                            None => PaneFlex(DEFAULT_PANE_FLEX_BITS),
                        };
                        let ghost cv = forest_view(children@);
                        children.push((f, c));
                        proof {
                            assert(forest_view(children@) =~= cv.push((f, tree_view(c))));
                            assert(kids_view(all, i as int, j as int) == seq![
                                (f, read_view(all, j as int)),
                            ] + kids_view(all, i as int, j + 1));
                            assert(cv + kids_view(all, i as int, j as int) =~= forest_view(
                                children@,
                            ) + kids_view(all, i as int, j + 1));
                        }
                    } else {
                        proof {
                            assert(kids_view(all, i as int, j as int) == kids_view(
                                all,
                                i as int,
                                j + 1,
                            ));
                        }
                    }
                    j = j + 1;
                }
                proof {
                    assert(kids_view(all, i as int, n as int) =~= Seq::<(PaneFlex, TreeView)>::empty());
                    assert(forest_view(children@) + Seq::<(PaneFlex, TreeView)>::empty() =~= forest_view(children@));
                }
                let direction = if horizontal {
                    SplitDirection::Horizontal
                } else {
                    SplitDirection::Vertical
                };
                let node = PaneNodeSnapshot::Branch(BranchSnapshot { direction, children });
                proof {
                    assert(tree_view(node)->children =~= forest_view(children@));
                }
                node
            },
        };
        proof {
            assert(tree_view(node) == read_view(all, i as int));
        }
        built.set(i, Some(node));
    }
    // The root is the first row without a parent.
    let mut j: usize = 0;
    while j < n
        invariant
            0 <= j <= n,
            n == all.len(),
            parents@.len() == n,
            built@.len() == n,
            forall|m: int| 0 <= m < n ==> parents@[m] == all[m].parent,
            forall|m: int|
                #![trigger built@[m]]
                0 <= m < n ==> if handed_to_parent(all, 0, m) {
                    built@[m] is None
                } else {
                    built@[m] matches Some(x) && tree_view(x) == read_view(all, m)
                },
            first_root(all, 0) == first_root(all, j as int),
            all == rows@,
        decreases n - j,
    {
        if parents[j].is_none() {
            proof {
                assert(first_root(all, j as int) == Some(j as int));
                assert(all[j as int].parent is None);
                assert(!handed_to_parent(all, 0, j as int));
                assert(built@[j as int] matches Some(x) && tree_view(x) == read_view(all, j as int));
            }
            let r = take_at(&mut built, j);
            proof {
                assert(r matches Some(t) && tree_view(t) == read_view(all, j as int));
            }
            return r;
        }
        j = j + 1;
    }
    None
}

/// The tree as it is read back after being saved: leaves come back as the
/// database keeps them, and leaves whose contents are not persisted are
/// gone from their splits.
pub open spec fn pruned_view(t: TreeView) -> TreeView
    decreases t, 1nat,
{
    match t {
        TreeView::Leaf(l) => match stored_leaf(l) {
            Some(s) => TreeView::Leaf(restored_leaf(s)),
            None => TreeView::Leaf(l),
        },
        TreeView::Branch { direction, children } => TreeView::Branch {
            direction,
            children: pruned_forest(children),
        },
    }
}

/// The children of a split that are read back, as read back, in order.
pub open spec fn pruned_forest(c: Seq<(PaneFlex, TreeView)>) -> Seq<(PaneFlex, TreeView)>
    decreases c, 0nat,
{
    if c.len() == 0 {
        Seq::empty()
    } else {
        let rest = pruned_forest(c.drop_first());
        if node_kind(c[0].1) is Some {
            seq![(c[0].0, pruned_view(c[0].1))] + rest
        } else {
            rest
        }
    }
}

/// Children that are all dropped contribute nothing.
proof fn lemma_pruned_forest_skip(c: Seq<(PaneFlex, TreeView)>, m: int)
    requires
        0 <= m <= c.len(),
        forall|k: int| 0 <= k < m ==> node_kind(#[trigger] c[k].1) is None,
    ensures
        pruned_forest(c) == pruned_forest(c.skip(m)),
    decreases m,
{
    if m == 0 {
        assert(c.skip(0) =~= c);
    } else {
        assert(node_kind(c[0].1) is None);
        let d = c.drop_first();
        assert forall|k: int| 0 <= k < m - 1 implies node_kind(#[trigger] d[k].1) is None by {
            assert(d[k] == c[k + 1]);
        }
        lemma_pruned_forest_skip(d, m - 1);
        assert(d.skip(m - 1) =~= c.skip(m));
    }
}

/// The children read back for the split in row `i` are the pruned
/// children, when the rows naming `i` as parent from `j0` on are exactly
/// the rows of the kept children, in order.
proof fn lemma_kids_collect(
    rows: Seq<PaneNodeRow>,
    i: int,
    j0: int,
    c: Seq<(PaneFlex, TreeView)>,
    kpos: Seq<int>,
)
    requires
        0 <= i < j0 <= rows.len(),
        rows.len() < usize::MAX,
        kpos.len() == c.len(),
        forall|m: int|
            #![trigger kpos[m]]
            0 <= m < c.len() && node_kind(c[m].1) is Some ==> {
                &&& j0 <= kpos[m] < rows.len()
                &&& rows[kpos[m]].parent == Some(i as usize)
                &&& rows[kpos[m]].flex == Some(c[m].0)
                &&& read_view(rows, kpos[m]) == pruned_view(c[m].1)
            },
        forall|m1: int, m2: int|
            #![trigger kpos[m1], kpos[m2]]
            0 <= m1 < m2 < c.len() && node_kind(c[m1].1) is Some && node_kind(c[m2].1) is Some
                ==> kpos[m1] < kpos[m2],
        forall|t: int|
            j0 <= t < rows.len() && #[trigger] rows[t].parent == Some(i as usize) ==> exists|m: int|
                0 <= m < c.len() && node_kind(c[m].1) is Some && kpos[m] == t,
    ensures
        kids_view(rows, i, j0) == pruned_forest(c),
    decreases rows.len() - j0,
{
    // The kept children before the first one are none.
    if j0 == rows.len() {
        assert forall|k: int| 0 <= k < c.len() implies node_kind(#[trigger] c[k].1) is None by {
            if node_kind(c[k].1) is Some {
                assert(j0 <= kpos[k] < rows.len());
            }
        }
        lemma_pruned_forest_skip(c, c.len() as int);
        assert(c.skip(c.len() as int) =~= Seq::<(PaneFlex, TreeView)>::empty());
    } else if rows[j0].parent == Some(i as usize) {
        let m = choose|m: int| 0 <= m < c.len() && node_kind(c[m].1) is Some && kpos[m] == j0;
        assert forall|k: int| 0 <= k < m implies node_kind(#[trigger] c[k].1) is None by {
            if node_kind(c[k].1) is Some {
                assert(kpos[k] < kpos[m]);
                assert(j0 <= kpos[k]);
            }
        }
        lemma_pruned_forest_skip(c, m);
        let d = c.skip(m);
        assert(d[0] == c[m]);
        assert(pruned_forest(d) == seq![(c[m].0, pruned_view(c[m].1))] + pruned_forest(
            d.drop_first(),
        ));
        let c2 = c.skip(m + 1);
        let kpos2 = kpos.skip(m + 1);
        assert(d.drop_first() =~= c2);
        assert forall|m2: int|
            #![trigger kpos2[m2]]
            0 <= m2 < c2.len() && node_kind(c2[m2].1) is Some implies {
                &&& j0 + 1 <= kpos2[m2] < rows.len()
                &&& rows[kpos2[m2]].parent == Some(i as usize)
                &&& rows[kpos2[m2]].flex == Some(c2[m2].0)
                &&& read_view(rows, kpos2[m2]) == pruned_view(c2[m2].1)
            } by {
            assert(c2[m2] == c[m + 1 + m2]);
            assert(kpos2[m2] == kpos[m + 1 + m2]);
            assert(kpos[m] < kpos[m + 1 + m2]);
        }
        assert forall|a: int, b: int|
            #![trigger kpos2[a], kpos2[b]]
            0 <= a < b < c2.len() && node_kind(c2[a].1) is Some && node_kind(c2[b].1) is Some
                implies kpos2[a] < kpos2[b] by {
            assert(c2[a] == c[m + 1 + a]);
            assert(c2[b] == c[m + 1 + b]);
            assert(kpos2[a] == kpos[m + 1 + a]);
            assert(kpos2[b] == kpos[m + 1 + b]);
        }
        assert forall|t: int|
            j0 + 1 <= t < rows.len() && #[trigger] rows[t].parent == Some(i as usize) implies exists|
                m2: int,
            | 0 <= m2 < c2.len() && node_kind(c2[m2].1) is Some && kpos2[m2] == t by {
            let k = choose|k: int| 0 <= k < c.len() && node_kind(c[k].1) is Some && kpos[k] == t;
            if k <= m {
                if k < m {
                    assert(false);
                }
            }
            assert(k > m);
            assert(c2[k - m - 1] == c[k]);
            assert(kpos2[k - m - 1] == kpos[k]);
        }
        lemma_kids_collect(rows, i, j0 + 1, c2, kpos2);
        assert(kids_view(rows, i, j0) == seq![
            (flex_or_default(rows[j0].flex), read_view(rows, j0)),
        ] + kids_view(rows, i, j0 + 1));
    } else {
        assert forall|m: int|
            #![trigger kpos[m]]
            0 <= m < c.len() && node_kind(c[m].1) is Some implies j0 + 1 <= kpos[m] by {
            if kpos[m] == j0 {
                assert(rows[kpos[m]].parent == Some(i as usize));
            }
        }
        lemma_kids_collect(rows, i, j0 + 1, c, kpos);
    }
}

/// Each kept pending node of `q` has its row at `pos` in `r`, with the
/// parent and flex it was queued with, and reads back as pruned.
pub open spec fn placed(q: Seq<PendingNode>, b: int, r: Seq<PaneNodeRow>, pos: Seq<int>) -> bool {
    forall|k: int|
        #![trigger pos[k]]
        0 <= k < q.len() && node_kind(q[k].0) is Some ==> {
            &&& b <= pos[k] < r.len()
            &&& r[pos[k]].parent == q[k].1
            &&& r[pos[k]].flex == q[k].2
            &&& read_view(r, pos[k]) == pruned_view(q[k].0)
        }
}

/// The rows of the kept pending nodes come in queue order.
pub open spec fn in_queue_order(q: Seq<PendingNode>, pos: Seq<int>) -> bool {
    forall|k1: int, k2: int|
        #![trigger pos[k1], pos[k2]]
        0 <= k1 < k2 < q.len() && node_kind(q[k1].0) is Some && node_kind(q[k2].0) is Some
            ==> pos[k1] < pos[k2]
}

/// Every row from `b` on is the row of a pending node of `q`, or names a
/// parent row from `b` on that comes before it.
pub open spec fn rows_accounted(q: Seq<PendingNode>, b: int, r: Seq<PaneNodeRow>, pos: Seq<int>) -> bool {
    forall|t: int|
        #![trigger r[t]]
        b <= t < r.len() ==> (exists|k: int|
            0 <= k < q.len() && node_kind(q[k].0) is Some && #[trigger] pos[k] == t) || (
        r[t].parent matches Some(v) && b <= v < t)
}

/// Where breadth-first saving puts the pending nodes `q`, after `e`:
/// each kept node gets a row of its own, in queue order, with the parent
/// and flex it was queued with, and reading that row back gives the node
/// as read back; every other row written names a later parent.
proof fn lemma_bfs_layout(q: Seq<PendingNode>, b: usize, e: Seq<PaneNodeRow>) -> (pos: Seq<int>)
    requires
        e.len() == b,
        b + queue_size(q) < usize::MAX,
        forall|k: int| 0 <= k < q.len() ==> (#[trigger] q[k].1 matches Some(v) ==> v < b),
    ensures
        pos.len() == q.len(),
        bfs_rows(q, b).len() <= queue_size(q),
        placed(q, b as int, e + bfs_rows(q, b), pos),
        in_queue_order(q, pos),
        rows_accounted(q, b as int, e + bfs_rows(q, b), pos),
    decreases queue_size(q), 1nat,
{
    if q.len() == 0 {
        assert(e + bfs_rows(q, b) =~= e);
        Seq::empty()
    } else if node_kind(q[0].0) is None {
        lemma_bfs_skip(q, b, e)
    } else {
        lemma_bfs_keep(q, b, e)
    }
}

/// A pending node that gets no row is simply passed over.
proof fn lemma_bfs_skip(q: Seq<PendingNode>, b: usize, e: Seq<PaneNodeRow>) -> (pos: Seq<int>)
    requires
        e.len() == b,
        b + queue_size(q) < usize::MAX,
        forall|k: int| 0 <= k < q.len() ==> (#[trigger] q[k].1 matches Some(v) ==> v < b),
        q.len() > 0,
        node_kind(q[0].0) is None,
    ensures
        pos.len() == q.len(),
        bfs_rows(q, b).len() <= queue_size(q),
        placed(q, b as int, e + bfs_rows(q, b), pos),
        in_queue_order(q, pos),
        rows_accounted(q, b as int, e + bfs_rows(q, b), pos),
    decreases queue_size(q), 0nat,
{
    let r = e + bfs_rows(q, b);
    let rest = q.drop_first();
    lemma_queue_size_pop(q);
    assert forall|k: int| 0 <= k < rest.len() implies (#[trigger] rest[k].1 matches Some(v) ==> v
        < b) by {
        assert(rest[k] == q[k + 1]);
    }
    assert(bfs_rows(q, b) == bfs_rows(rest, b));
    let pos1 = lemma_bfs_layout(rest, b, e);
    let pos = seq![-1int] + pos1;
    assert forall|k: int|
        #![trigger pos[k]]
        0 <= k < q.len() && node_kind(q[k].0) is Some implies {
            &&& b <= pos[k] < r.len()
            &&& r[pos[k]].parent == q[k].1
            &&& r[pos[k]].flex == q[k].2
            &&& read_view(r, pos[k]) == pruned_view(q[k].0)
        } by {
        assert(k > 0);
        assert(q[k] == rest[k - 1]);
        assert(pos[k] == pos1[k - 1]);
    }
    assert forall|k1: int, k2: int|
        #![trigger pos[k1], pos[k2]]
        0 <= k1 < k2 < q.len() && node_kind(q[k1].0) is Some && node_kind(q[k2].0) is Some
            implies pos[k1] < pos[k2] by {
        assert(k1 > 0);
        assert(q[k1] == rest[k1 - 1] && q[k2] == rest[k2 - 1]);
        assert(pos[k1] == pos1[k1 - 1] && pos[k2] == pos1[k2 - 1]);
    }
    assert forall|t: int| #![trigger r[t]] b <= t < r.len() implies (exists|k: int|
        0 <= k < q.len() && node_kind(q[k].0) is Some && #[trigger] pos[k] == t) || (
    r[t].parent matches Some(v) && b <= v < t) by {
        if exists|k: int| 0 <= k < rest.len() && node_kind(rest[k].0) is Some && #[trigger] pos1[k] == t {
            let k = choose|k: int|
                0 <= k < rest.len() && node_kind(rest[k].0) is Some && #[trigger] pos1[k] == t;
            assert(q[k + 1] == rest[k]);
            assert(pos[k + 1] == pos1[k]);
        }
    }
    pos
}

/// A split written at row `b` reads back as pruned when its children were
/// placed right after the rest of the queue.
proof fn lemma_split_reads_back(
    r: Seq<PaneNodeRow>,
    b: usize,
    direction: SplitDirection,
    children: Seq<(PaneFlex, TreeView)>,
    rest: Seq<PendingNode>,
    pos1: Seq<int>,
)
    requires
        0 <= b < r.len() < usize::MAX,
        r[b as int].kind == (PaneNodeKind::Branch { horizontal: direction == SplitDirection::Horizontal }),
        forall|k: int| 0 <= k < rest.len() ==> (#[trigger] rest[k].1 matches Some(v) ==> v < b),
        pos1.len() == rest.len() + children.len(),
        placed(rest + child_items(children, b), b + 1, r, pos1),
        in_queue_order(rest + child_items(children, b), pos1),
        rows_accounted(rest + child_items(children, b), b + 1, r, pos1),
    ensures
        read_view(r, b as int) == pruned_view(TreeView::Branch { direction, children }),
{
    let kids = child_items(children, b);
    let q1 = rest + kids;
    let kpos = pos1.skip(rest.len() as int);
    assert forall|m: int|
        #![trigger kpos[m]]
        0 <= m < children.len() && node_kind(children[m].1) is Some implies {
            &&& b + 1 <= kpos[m] < r.len()
            &&& r[kpos[m]].parent == Some(b)
            &&& r[kpos[m]].flex == Some(children[m].0)
            &&& read_view(r, kpos[m]) == pruned_view(children[m].1)
        } by {
        let k1 = rest.len() + m;
        assert(q1[k1] == kids[m]);
        assert(kpos[m] == pos1[k1]);
    }
    assert forall|m1: int, m2: int|
        #![trigger kpos[m1], kpos[m2]]
        0 <= m1 < m2 < children.len() && node_kind(children[m1].1) is Some && node_kind(
            children[m2].1,
        ) is Some implies kpos[m1] < kpos[m2] by {
        assert(q1[rest.len() + m1] == kids[m1]);
        assert(q1[rest.len() + m2] == kids[m2]);
        assert(kpos[m1] == pos1[rest.len() + m1]);
        assert(kpos[m2] == pos1[rest.len() + m2]);
    }
    assert forall|t: int|
        b + 1 <= t < r.len() && #[trigger] r[t].parent == Some(b as usize) implies exists|m: int|
        0 <= m < children.len() && node_kind(children[m].1) is Some && kpos[m] == t by {
        if exists|k: int| 0 <= k < q1.len() && node_kind(q1[k].0) is Some && #[trigger] pos1[k] == t {
            let k = choose|k: int|
                0 <= k < q1.len() && node_kind(q1[k].0) is Some && #[trigger] pos1[k] == t;
            if k < rest.len() {
                assert(q1[k] == rest[k]);
                assert(r[pos1[k]].parent == rest[k].1);
                assert(false);
            }
            let m = k - rest.len();
            assert(q1[k] == kids[m]);
            assert(kpos[m] == pos1[k]);
        }
    }
    lemma_kids_collect(r, b as int, b + 1, children, kpos);
}

/// A pending node that gets a row is written first, and its children are
/// queued after the rest.
proof fn lemma_bfs_keep(q: Seq<PendingNode>, b: usize, e: Seq<PaneNodeRow>) -> (pos: Seq<int>)
    requires
        e.len() == b,
        b + queue_size(q) < usize::MAX,
        forall|k: int| 0 <= k < q.len() ==> (#[trigger] q[k].1 matches Some(v) ==> v < b),
        q.len() > 0,
        node_kind(q[0].0) is Some,
    ensures
        pos.len() == q.len(),
        bfs_rows(q, b).len() <= queue_size(q),
        placed(q, b as int, e + bfs_rows(q, b), pos),
        in_queue_order(q, pos),
        rows_accounted(q, b as int, e + bfs_rows(q, b), pos),
    decreases queue_size(q), 0nat,
{
    let r = e + bfs_rows(q, b);
    let (t0, p0, f0) = q[0];
    let kind = node_kind(t0).unwrap();
    let rest = q.drop_first();
    lemma_queue_size_pop(q);
    assert forall|k: int| 0 <= k < rest.len() implies (#[trigger] rest[k].1 matches Some(v) ==> v
        < b) by {
        assert(rest[k] == q[k + 1]);
    }
    let kids = match t0 {
        TreeView::Branch { children, .. } => child_items(children, b),
        TreeView::Leaf(_) => Seq::empty(),
    };
    lemma_queue_size_append(rest, kids);
    if let TreeView::Branch { children, .. } = t0 {
        lemma_child_items_size(children, b);
    }
    let row = PaneNodeRow { parent: p0, flex: f0, kind };
    assert(b < usize::MAX);
    let b1 = (b + 1) as usize;
    let q1 = rest + kids;
    assert(bfs_rows(q, b) == seq![row] + bfs_rows(q1, b1));
    let e2 = e.push(row);
    assert(r =~= e2 + bfs_rows(q1, b1));
    assert forall|k: int| 0 <= k < q1.len() implies (#[trigger] q1[k].1 matches Some(v) ==> v
        < b1) by {
        if k < rest.len() {
            assert(q1[k] == rest[k]);
        } else {
            assert(q1[k] == kids[k - rest.len()]);
        }
    }
    let pos1 = lemma_bfs_layout(q1, b1, e2);
    let pos = seq![b as int] + pos1.take(rest.len() as int);
    assert(r[b as int] == row);
    match t0 {
        TreeView::Leaf(l) => {
            assert(read_view(r, b as int) == pruned_view(t0));
        },
        TreeView::Branch { direction, children } => {
            lemma_split_reads_back(r, b, direction, children, rest, pos1);
        },
    }
    assert forall|k: int|
        #![trigger pos[k]]
        0 <= k < q.len() && node_kind(q[k].0) is Some implies {
            &&& b <= pos[k] < r.len()
            &&& r[pos[k]].parent == q[k].1
            &&& r[pos[k]].flex == q[k].2
            &&& read_view(r, pos[k]) == pruned_view(q[k].0)
        } by {
        if k > 0 {
            assert(q[k] == rest[k - 1]);
            assert(q1[k - 1] == rest[k - 1]);
            assert(pos[k] == pos1[k - 1]);
        }
    }
    assert forall|k1: int, k2: int|
        #![trigger pos[k1], pos[k2]]
        0 <= k1 < k2 < q.len() && node_kind(q[k1].0) is Some && node_kind(q[k2].0) is Some
            implies pos[k1] < pos[k2] by {
        assert(q[k2] == rest[k2 - 1]);
        assert(q1[k2 - 1] == rest[k2 - 1]);
        assert(pos[k2] == pos1[k2 - 1]);
        if k1 > 0 {
            assert(q[k1] == rest[k1 - 1]);
            assert(q1[k1 - 1] == rest[k1 - 1]);
            assert(pos[k1] == pos1[k1 - 1]);
        }
    }
    assert forall|t: int| #![trigger r[t]] b <= t < r.len() implies (exists|k: int|
        0 <= k < q.len() && node_kind(q[k].0) is Some && #[trigger] pos[k] == t) || (
    r[t].parent matches Some(v) && b <= v < t) by {
        if t == b {
            assert(pos[0] == b);
        } else if exists|k: int| 0 <= k < q1.len() && node_kind(q1[k].0) is Some && #[trigger] pos1[k] == t {
            let k = choose|k: int|
                0 <= k < q1.len() && node_kind(q1[k].0) is Some && #[trigger] pos1[k] == t;
            if k < rest.len() {
                assert(q[k + 1] == rest[k]);
                assert(q1[k] == rest[k]);
                assert(pos[k + 1] == pos1[k]);
            } else {
                assert(q1[k] == kids[k - rest.len()]);
                assert(r[pos1[k]].parent == Some(b));
            }
        }
    }
    pos
}

/// What a tab's pane tree reads back as after being saved: when the root
/// gets a row, the first row is the root and reading the rows back gives
/// the tree with its leaves as the database keeps them and without the
/// leaves whose contents are not persisted.
pub proof fn lemma_pane_rows_read_back(root: PaneNodeSnapshot)
    requires
        tree_size(tree_view(root)) < usize::MAX,
        node_kind(tree_view(root)) is Some,
    ensures
        ({
            let rows = bfs_rows(seq![(tree_view(root), None::<usize>, None::<PaneFlex>)], 0);
            &&& first_root(rows, 0) == Some(0int)
            &&& read_view(rows, 0) == pruned_view(tree_view(root))
        }),
{
    let q = seq![(tree_view(root), None::<usize>, None::<PaneFlex>)];
    let e = Seq::<PaneNodeRow>::empty();
    assert(q.drop_last() =~= Seq::<PendingNode>::empty());
    assert(queue_size(q.drop_last()) == 0);
    assert(queue_size(q) == tree_size(tree_view(root)));
    let pos = lemma_bfs_layout(q, 0, e);
    let rows = bfs_rows(q, 0);
    assert(e + rows =~= rows);
    assert(pos[0] == 0);
    assert(rows[0].parent is None);
}

/// A leaf read back after it was saved is the leaf that was saved, but for
/// what the database does not keep: a terminal pane comes back writable
/// (with its id, directory, activity, shell and profile unchanged), a
/// settings pane without its search query. Network-log panes are not saved.
pub proof fn lemma_leaf_read_back_after_save(l: LeafSnapshot)
    ensures
        (l.contents is NetworkLog) <==> stored_leaf(l) is None,
        stored_leaf(l) is Some ==> ({
            let r = restored_leaf(stored_leaf(l)->0);
            &&& r.is_focused == l.is_focused
            &&& r.custom_vertical_tabs_title == l.custom_vertical_tabs_title
            &&& match l.contents {
                LeafContents::Terminal(t) => {
                    &&& r.contents is Terminal
                    &&& r.contents->Terminal_0.uuid == t.uuid
                    &&& r.contents->Terminal_0.cwd == t.cwd
                    &&& r.contents->Terminal_0.is_active == t.is_active
                    &&& !r.contents->Terminal_0.is_read_only
                    &&& r.contents->Terminal_0.shell_launch_data == t.shell_launch_data
                    &&& r.contents->Terminal_0.active_profile_id == t.active_profile_id
                },
                LeafContents::Settings(SettingsPaneSnapshot::Local { current_page, .. }) => {
                    r.contents == LeafContents::Settings(
                        SettingsPaneSnapshot::Local { current_page, search_query: None },
                    )
                },
                _ => r.contents == l.contents,
            }
        }),
{
}

} // verus!
