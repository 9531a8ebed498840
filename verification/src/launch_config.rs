//! Launch configurations: saved window/tab/pane layouts that can be opened
//! again. A configuration is built from a snapshot of the running app by
//! keeping the terminal panes only.

use vstd::prelude::*;

use crate::app_state::{
    AnsiColorIdentifier, AppState, LeafContents, LeafSnapshot, PaneFlex, PaneNodeSnapshot,
    SelectedTabColor, ShellLaunchData, SplitDirection, TabSnapshot, WindowSnapshot,
};

verus! {

/// What a pane of a launch configuration opens.
#[derive(Clone, Copy, Debug, PartialEq, Eq, Structural)]
pub enum PaneMode {
    Terminal,
}

/// A command to run when a pane opens.
#[derive(Clone, Debug, PartialEq)]
pub struct CommandTemplate {
    pub command: String,
}

/// The layout of a tab in a launch configuration.
#[derive(Debug, PartialEq)]
pub enum PaneTemplateType {
    PaneTemplate {
        is_focused: Option<bool>,
        cwd: String,
        commands: Vec<CommandTemplate>,
        pane_mode: PaneMode,
        shell: Option<ShellLaunchData>,
    },
    PaneBranchTemplate { split_direction: SplitDirection, panes: Vec<PaneTemplateType> },
}

/// A tab of a launch configuration.
#[derive(Debug, PartialEq)]
pub struct TabTemplate {
    pub title: Option<String>,
    pub layout: PaneTemplateType,
    pub color: Option<AnsiColorIdentifier>,
}

/// A window of a launch configuration.
#[derive(Debug, PartialEq)]
pub struct WindowTemplate {
    pub tabs: Vec<TabTemplate>,
    pub active_tab_index: Option<usize>,
}

/// A named launch configuration.
#[derive(Debug, PartialEq)]
pub struct LaunchConfig {
    pub name: String,
    pub windows: Vec<WindowTemplate>,
    pub active_window_index: Option<usize>,
}

/// The mathematical form of a [`PaneTemplateType`].
pub enum PaneLayout {
    Pane {
        is_focused: Option<bool>,
        cwd: Seq<char>,
        commands: Seq<Seq<char>>,
        pane_mode: PaneMode,
        shell: Option<ShellLaunchData>,
    },
    Branch { split_direction: SplitDirection, panes: Seq<PaneLayout> },
}

/// The mathematical form of a [`TabTemplate`].
pub struct TabLayout {
    pub title: Option<Seq<char>>,
    pub layout: PaneLayout,
    pub color: Option<AnsiColorIdentifier>,
}

/// The mathematical form of a [`WindowTemplate`].
pub struct WindowLayout {
    pub tabs: Seq<TabLayout>,
    pub active_tab_index: Option<usize>,
}

/// The mathematical form of a [`LaunchConfig`].
pub struct LaunchConfigLayout {
    pub name: Seq<char>,
    pub windows: Seq<WindowLayout>,
    pub active_window_index: Option<usize>,
}

pub open spec fn opt_string_view(o: Option<String>) -> Option<Seq<char>> {
    match o {
        Some(s) => Some(s@),
        None => None,
    }
}

pub open spec fn pane_layout_of(t: PaneTemplateType) -> PaneLayout
    decreases t,
{
    match t {
        PaneTemplateType::PaneTemplate { is_focused, cwd, commands, pane_mode, shell } => {
            PaneLayout::Pane {
                is_focused,
                cwd: cwd@,
                commands: Seq::new(commands@.len(), |i: int| commands@[i].command@),
                pane_mode,
                shell,
            }
        },
        PaneTemplateType::PaneBranchTemplate { split_direction, panes } => PaneLayout::Branch {
            split_direction,
            panes: Seq::new(
                panes@.len(),
                |i: int|
                    if 0 <= i < panes@.len() {
                        pane_layout_of(panes@[i])
                    } else {
                        PaneLayout::Branch { split_direction, panes: Seq::empty() }
                    },
            ),
        },
    }
}

impl View for PaneTemplateType {
    type V = PaneLayout;

    open spec fn view(&self) -> PaneLayout {
        pane_layout_of(*self)
    }
}

impl View for TabTemplate {
    type V = TabLayout;

    open spec fn view(&self) -> TabLayout {
        TabLayout { title: opt_string_view(self.title), layout: self.layout@, color: self.color }
    }
}

impl View for WindowTemplate {
    type V = WindowLayout;

    open spec fn view(&self) -> WindowLayout {
        WindowLayout {
            tabs: Seq::new(self.tabs@.len(), |i: int| self.tabs@[i]@),
            active_tab_index: self.active_tab_index,
        }
    }
}

impl View for LaunchConfig {
    type V = LaunchConfigLayout;

    open spec fn view(&self) -> LaunchConfigLayout {
        LaunchConfigLayout {
            name: self.name@,
            windows: Seq::new(self.windows@.len(), |i: int| self.windows@[i]@),
            active_window_index: self.active_window_index,
        }
    }
}

/// The pane a leaf becomes: terminal panes keep their focus, working
/// directory (empty when unknown) and shell; other panes are dropped.
pub open spec fn leaf_layout(l: LeafSnapshot) -> Option<PaneLayout> {
    match l.contents {
        LeafContents::Terminal(t) => Some(
            PaneLayout::Pane {
                is_focused: Some(l.is_focused),
                cwd: match t.cwd {
                    Some(c) => c@,
                    None => Seq::empty(),
                },
                commands: Seq::empty(),
                pane_mode: PaneMode::Terminal,
                shell: t.shell_launch_data,
            },
        ),
        _ => None,
    }
}

/// The layout a pane node becomes. A split keeps the layouts of its children
/// that survive, in order: none means the split is dropped, one replaces the
/// split by that child, more keep the split with its direction.
pub open spec fn node_layout(n: PaneNodeSnapshot) -> Option<PaneLayout>
    decreases n, 1nat,
{
    match n {
        PaneNodeSnapshot::Leaf(l) => leaf_layout(l),
        PaneNodeSnapshot::Branch(b) => {
            let kids = children_layouts(b.children@);
            if kids.len() == 0 {
                None
            } else if kids.len() == 1 {
                Some(kids[0])
            } else {
                Some(PaneLayout::Branch { split_direction: b.direction, panes: kids })
            }
        },
    }
}

/// The layouts of the children of a split that survive, in order.
pub open spec fn children_layouts(children: Seq<(PaneFlex, PaneNodeSnapshot)>) -> Seq<PaneLayout>
    decreases children, 0nat,
{
    if children.len() == 0 {
        Seq::empty()
    } else {
        let rest = children_layouts(children.drop_last());
        match node_layout(children.last().1) {
            Some(t) => rest.push(t),
            None => rest,
        }
    }
}

pub open spec fn selected_color_template(c: SelectedTabColor) -> Option<AnsiColorIdentifier> {
    match c {
        SelectedTabColor::Color(a) => Some(a),
        SelectedTabColor::Unset => None,
    }
}

/// The tab a snapshot tab becomes; `None` when none of its panes survives.
pub open spec fn tab_layout(t: TabSnapshot) -> Option<TabLayout> {
    match node_layout(t.root) {
        Some(l) => Some(
            TabLayout {
                title: opt_string_view(t.custom_title),
                layout: l,
                color: selected_color_template(t.selected_color),
            },
        ),
        None => None,
    }
}

/// The tabs of a window that survive, in order.
pub open spec fn kept_tabs(tabs: Seq<TabSnapshot>) -> Seq<TabLayout>
    decreases tabs.len(),
{
    if tabs.len() == 0 {
        Seq::empty()
    } else {
        let rest = kept_tabs(tabs.drop_last());
        match tab_layout(tabs.last()) {
            Some(t) => rest.push(t),
            None => rest,
        }
    }
}

/// The window a snapshot window becomes. The active tab keeps being the
/// active one, at its position among the surviving tabs; when it does not
/// survive, no tab is marked active.
pub open spec fn window_layout(w: WindowSnapshot) -> WindowLayout {
    let tabs = w.tabs@;
    let a = w.active_tab_index;
    WindowLayout {
        tabs: kept_tabs(tabs),
        active_tab_index: if a < tabs.len() && tab_layout(tabs[a as int]) is Some {
            Some(kept_tabs(tabs.take(a as int)).len() as usize)
        } else {
            None
        },
    }
}

/// The launch configuration named `name` built from `state`.
pub open spec fn launch_config_layout(name: Seq<char>, state: AppState) -> LaunchConfigLayout {
    LaunchConfigLayout {
        name,
        windows: Seq::new(state.windows@.len(), |i: int| window_layout(state.windows@[i])),
        active_window_index: state.active_window_index,
    }
}

fn clone_opt_string(o: &Option<String>) -> (r: Option<String>)
    ensures
        r == *o,
{
    match o {
        Some(s) => Some(s.clone()),
        None => None,
    }
}

fn clone_shell(o: &Option<ShellLaunchData>) -> (r: Option<ShellLaunchData>)
    ensures
        r == *o,
{
    match o {
        Some(ShellLaunchData::Executable { executable_path, shell_type }) => Some(
            ShellLaunchData::Executable {
                executable_path: executable_path.clone(),
                shell_type: *shell_type,
            },
        ),
        None => None,
    }
}

fn leaf_template(l: &LeafSnapshot) -> (r: Option<PaneTemplateType>)
    ensures
        match r {
            Some(t) => leaf_layout(*l) == Some(t@),
            None => leaf_layout(*l) is None,
        },
{
    match &l.contents {
        LeafContents::Terminal(t) => {
            let cwd = match &t.cwd {
                Some(c) => c.clone(),
                None => String::new(),
            };
            let commands: Vec<CommandTemplate> = Vec::new();
            let r = PaneTemplateType::PaneTemplate {
                is_focused: Some(l.is_focused),
                cwd,
                commands,
                pane_mode: PaneMode::Terminal,
                shell: clone_shell(&t.shell_launch_data),
            };
            proof {
                assert(Seq::new(commands@.len(), |i: int| commands@[i].command@) =~= Seq::<
                    Seq<char>,
                >::empty());
            }
            Some(r)
        },
        _ => None,
    }
}

/// The layout a pane node becomes in a launch configuration (see
/// [`node_layout`]).
fn pane_template(node: &PaneNodeSnapshot) -> (r: Option<PaneTemplateType>)
    ensures
        match r {
            Some(t) => node_layout(*node) == Some(t@),
            None => node_layout(*node) is None,
        },
    decreases node,
{
    match node {
        PaneNodeSnapshot::Leaf(l) => leaf_template(l),
        PaneNodeSnapshot::Branch(b) => {
            let n = b.children.len();
            let mut panes: Vec<PaneTemplateType> = Vec::new();
            let mut i: usize = 0;
            while i < n
                invariant
                    0 <= i <= n,
                    n == b.children@.len(),
                    *node == PaneNodeSnapshot::Branch(*b),
                    panes@.len() == children_layouts(b.children@.take(i as int)).len(),
                    forall|j: int|
                        0 <= j < panes@.len() ==> #[trigger] panes@[j]@ == children_layouts(
                            b.children@.take(i as int),
                        )[j],
                decreases n - i,
            {
                proof {
                    assert(b.children@.take(i + 1).drop_last() =~= b.children@.take(i as int));
                    assert(decreases_to!(b.children => b.children[i as int])) by {
                        broadcast use vstd::std_specs::vec::axiom_vec_index_decreases;
                    }
                    assert(decreases_to!(*node => (*node)->Branch_0));
                    assert(decreases_to!(*b => b.children));
                    assert(decreases_to!(*node => b.children@[i as int].1));
                }
                let child = pane_template(&b.children[i].1);
                match child {
                    Some(t) => {
                        panes.push(t);
                    },
                    None => {},
                }
                i = i + 1;
            }
            proof {
                assert(b.children@.take(n as int) =~= b.children@);
            }
            let ghost kids = children_layouts(b.children@);
            if panes.len() == 0 {
                None
            } else if panes.len() == 1 {
                let ghost p0 = panes@[0];
                assert(p0@ == kids[0]);
                let t = panes.pop().unwrap();
                assert(t == p0);
                Some(t)
            } else {
                let r = PaneTemplateType::PaneBranchTemplate { split_direction: b.direction, panes };
                proof {
                    let v = r@->Branch_panes;
                    assert forall|k: int| 0 <= k < panes@.len() implies v[k] == kids[k] by {
                        assert(panes@[k]@ == kids[k]);
                    }
                    assert(v =~= kids);
                }
                Some(r)
            }
        },
    }
}

fn tab_template(t: &TabSnapshot) -> (r: Option<TabTemplate>)
    ensures
        match r {
            Some(x) => tab_layout(*t) == Some(x@),
            None => tab_layout(*t) is None,
        },
{
    match pane_template(&t.root) {
        Some(layout) => {
            let color = match t.selected_color {
                SelectedTabColor::Color(a) => Some(a),
                SelectedTabColor::Unset => None,
            };
            Some(TabTemplate { title: clone_opt_string(&t.custom_title), layout, color })
        },
        None => None,
    }
}

fn window_template(w: &WindowSnapshot) -> (r: WindowTemplate)
    ensures
        r@ == window_layout(*w),
{
    let n = w.tabs.len();
    let a = w.active_tab_index;
    let mut tabs: Vec<TabTemplate> = Vec::new();
    let mut active: Option<usize> = None;
    let mut i: usize = 0;
    while i < n
        invariant
            0 <= i <= n,
            n == w.tabs@.len(),
            a == w.active_tab_index,
            tabs@.len() == kept_tabs(w.tabs@.take(i as int)).len(),
            forall|j: int|
                0 <= j < tabs@.len() ==> #[trigger] tabs@[j]@ == kept_tabs(
                    w.tabs@.take(i as int),
                )[j],
            active == (if a < i && tab_layout(w.tabs@[a as int]) is Some {
                Some(kept_tabs(w.tabs@.take(a as int)).len() as usize)
            } else {
                None::<usize>
            }),
        decreases n - i,
    {
        proof {
            assert(w.tabs@.take(i + 1).drop_last() =~= w.tabs@.take(i as int));
        }
        match tab_template(&w.tabs[i]) {
            Some(t) => {
                if i == a {
                    active = Some(tabs.len());
                }
                tabs.push(t);
            },
            None => {},
        }
        i = i + 1;
    }
    proof {
        assert(w.tabs@.take(n as int) =~= w.tabs@);
    }
    let r = WindowTemplate { tabs, active_tab_index: active };
    proof {
        assert(Seq::new(tabs@.len(), |k: int| tabs@[k]@) =~= kept_tabs(w.tabs@));
    }
    r
}

impl LaunchConfig {
    /// Builds the launch configuration named `name` from a snapshot of the
    /// app. Panes that are not terminals are left out; a split left with one
    /// pane is flattened to that pane; a tab left with no pane is left out,
    /// and a window's active tab is renumbered among the remaining tabs.
    pub fn from_snapshot(name: String, snapshot: &AppState) -> (r: LaunchConfig)
        ensures
            r@ == launch_config_layout(name@, *snapshot),
    {
        let n = snapshot.windows.len();
        let mut windows: Vec<WindowTemplate> = Vec::new();
        let mut i: usize = 0;
        while i < n
            invariant
                0 <= i <= n,
                n == snapshot.windows@.len(),
                windows@.len() == i,
                forall|j: int|
                    0 <= j < i ==> #[trigger] windows@[j]@ == window_layout(snapshot.windows@[j]),
            decreases n - i,
        {
            windows.push(window_template(&snapshot.windows[i]));
            i = i + 1;
        }
        let r = LaunchConfig { name, windows, active_window_index: snapshot.active_window_index };
        proof {
            assert(Seq::new(windows@.len(), |k: int| windows@[k]@) =~= Seq::new(
                snapshot.windows@.len(),
                |k: int| window_layout(snapshot.windows@[k]),
            ));
        }
        r
    }
}

proof fn lemma_kept_tabs_append(x: Seq<TabSnapshot>, y: Seq<TabSnapshot>)
    ensures
        kept_tabs(x + y) == kept_tabs(x) + kept_tabs(y),
    decreases y.len(),
{
    if y.len() == 0 {
        assert(x + y =~= x);
        assert(kept_tabs(x) + kept_tabs(y) =~= kept_tabs(x));
    } else {
        lemma_kept_tabs_append(x, y.drop_last());
        assert((x + y).drop_last() =~= x + y.drop_last());
        assert((x + y).last() == y.last());
        match tab_layout(y.last()) {
            Some(t) => {
                assert(kept_tabs(x) + kept_tabs(y.drop_last()).push(t) =~= (kept_tabs(x)
                    + kept_tabs(y.drop_last())).push(t));
            },
            None => {},
        }
    }
}

proof fn lemma_kept_tabs_len(x: Seq<TabSnapshot>)
    ensures
        kept_tabs(x).len() <= x.len(),
    decreases x.len(),
{
    if x.len() > 0 {
        lemma_kept_tabs_len(x.drop_last());
    }
}

/// The tab marked active in a window of a launch configuration is the tab
/// that was active in the snapshot; no tab is marked active exactly when
/// the snapshot's active tab was left out.
pub proof fn lemma_active_tab_survives(w: WindowSnapshot)
    ensures
        window_layout(w).active_tab_index matches Some(j) ==> {
            &&& j < window_layout(w).tabs.len()
            &&& tab_layout(w.tabs@[w.active_tab_index as int]) == Some(
                window_layout(w).tabs[j as int],
            )
        },
        window_layout(w).active_tab_index is None <==> (w.active_tab_index >= w.tabs@.len()
            || tab_layout(w.tabs@[w.active_tab_index as int]) is None),
{
    let tabs = w.tabs@;
    let a = w.active_tab_index as int;
    if a < tabs.len() {
        if let Some(t) = tab_layout(tabs[a]) {
            let pre = tabs.take(a);
            let mid = seq![tabs[a]];
            let post = tabs.skip(a + 1);
            assert(tabs =~= pre + mid + post);
            lemma_kept_tabs_append(pre + mid, post);
            lemma_kept_tabs_append(pre, mid);
            assert(mid.drop_last() =~= Seq::<TabSnapshot>::empty());
            assert(kept_tabs(mid.drop_last()) =~= Seq::<TabLayout>::empty());
            assert(mid.last() == tabs[a]);
            assert(kept_tabs(mid) =~= seq![t]);
            lemma_kept_tabs_len(pre);
            lemma_kept_tabs_len(tabs);
            assert(kept_tabs(tabs)[kept_tabs(pre).len() as int] == t);
        }
    }
}

/// A layout in which every split has at least two panes, each of them
/// such a layout too.
pub open spec fn splits_have_two_panes(l: PaneLayout) -> bool
    decreases l,
{
    match l {
        PaneLayout::Pane { .. } => true,
        PaneLayout::Branch { panes, .. } => panes.len() >= 2 && forall|k: int|
            0 <= k < panes.len() ==> splits_have_two_panes(#[trigger] panes[k]),
    }
}

proof fn lemma_node_layout_shape(n: PaneNodeSnapshot)
    ensures
        node_layout(n) matches Some(l) ==> splits_have_two_panes(l),
    decreases n, 1nat,
{
    if let PaneNodeSnapshot::Branch(b) = n {
        lemma_children_layouts_shape(b.children@);
        let kids = children_layouts(b.children@);
        if kids.len() == 1 {
            assert(splits_have_two_panes(kids[0]));
        }
    }
}

proof fn lemma_children_layouts_shape(children: Seq<(PaneFlex, PaneNodeSnapshot)>)
    ensures
        forall|k: int|
            0 <= k < children_layouts(children).len() ==> splits_have_two_panes(
                #[trigger] children_layouts(children)[k],
            ),
    decreases children, 0nat,
{
    if children.len() > 0 {
        let rest = children.drop_last();
        lemma_children_layouts_shape(rest);
        assert(decreases_to!(children => children[children.len() - 1]));
        lemma_node_layout_shape(children.last().1);
        let r = children_layouts(children);
        assert forall|k: int| 0 <= k < r.len() implies splits_have_two_panes(#[trigger] r[k]) by {
            if k < children_layouts(rest).len() {
                assert(r[k] == children_layouts(rest)[k]);
            }
        }
    }
}

/// A split of a launch configuration always holds at least two panes: a
/// split left with one pane is replaced by that pane, and one left with
/// none is dropped.
pub proof fn lemma_tab_layout_splits_have_two_panes(t: TabSnapshot)
    ensures
        tab_layout(t) matches Some(l) ==> splits_have_two_panes(l.layout),
{
    lemma_node_layout_shape(t.root);
}

} // verus!
