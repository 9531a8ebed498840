//! Snapshots of the window/tab/pane layout, as saved for session restoration
//! and read back to build launch configurations.
//!
//! Geometry that the UI keeps as `f32` (pane flex factors, window bounds and
//! panel widths) is held here as the bit pattern of that `f32`
//! (`f32::to_bits`); the logic in this crate only carries it along.

use vstd::prelude::*;

verus! {

/// The flex factor of a pane within its parent split, as `f32` bits.
#[derive(Clone, Copy, Debug, PartialEq)]
pub struct PaneFlex(pub u32);

/// The axis along which a split arranges its children.
#[derive(Clone, Copy, Debug, PartialEq, Eq, Structural)]
pub enum SplitDirection {
    Horizontal,
    Vertical,
}

/// The shells Rift can launch.
#[derive(Clone, Copy, Debug, PartialEq, Eq, Structural)]
pub enum ShellType {
    Bash,
    Zsh,
    Fish,
    PowerShell,
}

/// How the shell of a terminal pane was started.
#[derive(Clone, Debug, PartialEq)]
pub enum ShellLaunchData {
    Executable { executable_path: String, shell_type: ShellType },
}

/// A terminal pane.
#[derive(Clone, Debug, PartialEq)]
pub struct TerminalPaneSnapshot {
    pub uuid: Vec<u8>,
    pub cwd: Option<String>,
    pub is_active: bool,
    pub is_read_only: bool,
    pub shell_launch_data: Option<ShellLaunchData>,
    pub active_profile_id: Option<String>,
}

/// A settings pane.
#[derive(Clone, Debug, PartialEq)]
pub enum SettingsPaneSnapshot {
    Local { current_page: String, search_query: Option<String> },
}

/// What a leaf pane shows.
#[derive(Clone, Debug, PartialEq)]
pub enum LeafContents {
    Terminal(TerminalPaneSnapshot),
    Settings(SettingsPaneSnapshot),
    GetStarted,
    Welcome { startup_directory: Option<String> },
    NetworkLog,
}

/// Whether panes with these contents are written to the database.
pub open spec fn leaf_contents_persisted(c: LeafContents) -> bool {
    !(c is NetworkLog)
}

impl LeafContents {
    /// Whether panes with these contents get a row of their own when the app
    /// state is saved; the others are skipped on save.
    pub fn is_persisted(&self) -> (b: bool)
        ensures
            b == leaf_contents_persisted(*self),
    {
        !matches!(self, LeafContents::NetworkLog)
    }
}

/// A leaf of the pane tree.
#[derive(Clone, Debug, PartialEq)]
pub struct LeafSnapshot {
    pub is_focused: bool,
    pub custom_vertical_tabs_title: Option<String>,
    pub contents: LeafContents,
}

/// A split of the pane tree.
#[derive(Debug, PartialEq)]
pub struct BranchSnapshot {
    pub direction: SplitDirection,
    pub children: Vec<(PaneFlex, PaneNodeSnapshot)>,
}

/// A node of the pane tree.
#[derive(Debug, PartialEq)]
pub enum PaneNodeSnapshot {
    Branch(BranchSnapshot),
    Leaf(LeafSnapshot),
}

/// The ANSI colours a tab can be tinted with.
#[derive(Clone, Copy, Debug, PartialEq, Eq, Structural)]
pub enum AnsiColorIdentifier {
    Black,
    Red,
    Green,
    Yellow,
    Blue,
    Magenta,
    Cyan,
    White,
}

/// The colour the user picked for a tab, if any.
#[derive(Clone, Copy, Debug, PartialEq, Eq, Structural, Default)]
pub enum SelectedTabColor {
    #[default]
    Unset,
    Color(AnsiColorIdentifier),
}

/// The state of a side panel of a tab.
#[derive(Clone, Debug, PartialEq)]
pub struct PanelSnapshot {
    pub width: u32,
}

/// A tab of a window.
#[derive(Debug, PartialEq)]
pub struct TabSnapshot {
    pub custom_title: Option<String>,
    pub default_directory_color: Option<AnsiColorIdentifier>,
    pub selected_color: SelectedTabColor,
    pub root: PaneNodeSnapshot,
    pub left_panel: Option<PanelSnapshot>,
    pub right_panel: Option<PanelSnapshot>,
}

/// Whether a window is shown normally, fullscreen or maximized.
#[derive(Clone, Copy, Debug, PartialEq, Eq, Structural, Default)]
pub enum FullscreenState {
    #[default]
    Normal,
    Fullscreen,
    Maximized,
}

/// Window bounds, each coordinate as `f32` bits.
#[derive(Clone, Copy, Debug, PartialEq)]
pub struct WindowBounds {
    pub origin_x: u32,
    pub origin_y: u32,
    pub width: u32,
    pub height: u32,
}

/// A window.
#[derive(Debug, PartialEq)]
pub struct WindowSnapshot {
    pub tabs: Vec<TabSnapshot>,
    pub active_tab_index: usize,
    pub bounds: Option<WindowBounds>,
    pub quake_mode: bool,
    pub universal_search_width: Option<u32>,
    pub warp_ai_width: Option<u32>,
    pub voltron_width: Option<u32>,
    pub warp_drive_index_width: Option<u32>,
    pub left_panel_open: bool,
    pub vertical_tabs_panel_open: bool,
    pub fullscreen_state: FullscreenState,
    pub left_panel_width: Option<u32>,
    pub right_panel_width: Option<u32>,
}

/// The whole application layout.
#[derive(Debug, PartialEq)]
pub struct AppState {
    pub windows: Vec<WindowSnapshot>,
    pub active_window_index: Option<usize>,
}

/// Whether `a` and `b` show the same thing: equal fields, a terminal's
/// uuid compared byte by byte.
pub open spec fn same_contents(a: LeafContents, b: LeafContents) -> bool {
    match (a, b) {
        (LeafContents::Terminal(x), LeafContents::Terminal(y)) => {
            &&& x.uuid@ == y.uuid@
            &&& x.cwd == y.cwd
            &&& x.is_active == y.is_active
            &&& x.is_read_only == y.is_read_only
            &&& x.shell_launch_data == y.shell_launch_data
            &&& x.active_profile_id == y.active_profile_id
        },
        (LeafContents::Terminal(_), _) => false,
        (_, LeafContents::Terminal(_)) => false,
        _ => a == b,
    }
}

/// Whether two leaves are copies of each other.
pub open spec fn same_leaf(a: LeafSnapshot, b: LeafSnapshot) -> bool {
    &&& a.is_focused == b.is_focused
    &&& a.custom_vertical_tabs_title == b.custom_vertical_tabs_title
    &&& same_contents(a.contents, b.contents)
}

/// Whether two pane trees are copies of each other: the same shape, the same
/// split directions and flex factors, and leaves that are copies.
pub open spec fn same_tree(a: PaneNodeSnapshot, b: PaneNodeSnapshot) -> bool
    decreases a,
{
    match a {
        PaneNodeSnapshot::Leaf(x) => b matches PaneNodeSnapshot::Leaf(y) && same_leaf(x, y),
        PaneNodeSnapshot::Branch(x) => {
            &&& b matches PaneNodeSnapshot::Branch(y)
            &&& x.direction == y.direction
            &&& x.children@.len() == y.children@.len()
            &&& forall|i: int|
                0 <= i < x.children@.len() ==> {
                    &&& x.children@[i].0 == y.children@[i].0
                    &&& #[trigger] same_tree(x.children@[i].1, y.children@[i].1)
                }
        },
    }
}

fn copy_optional(s: &Option<String>) -> (r: Option<String>)
    ensures
        r == *s,
{
    match s {
        Some(v) => Some(v.clone()),
        None => None,
    }
}

fn copy_bytes(v: &Vec<u8>) -> (r: Vec<u8>)
    ensures
        r@ == v@,
{
    let mut r: Vec<u8> = Vec::new();
    let mut i: usize = 0;
    while i < v.len()
        invariant
            0 <= i <= v@.len(),
            r@ == v@.take(i as int),
        decreases v@.len() - i,
    {
        r.push(v[i]);
        proof {
            assert(r@ =~= v@.take(i + 1));
        }
        i = i + 1;
    }
    proof {
        assert(v@.take(v@.len() as int) =~= v@);
    }
    r
}

fn copy_contents(c: &LeafContents) -> (r: LeafContents)
    ensures
        same_contents(r, *c),
{
    match c {
        LeafContents::Terminal(t) => LeafContents::Terminal(
            TerminalPaneSnapshot {
                uuid: copy_bytes(&t.uuid),
                cwd: copy_optional(&t.cwd),
                is_active: t.is_active,
                is_read_only: t.is_read_only,
                shell_launch_data: match &t.shell_launch_data {
                    Some(ShellLaunchData::Executable { executable_path, shell_type }) => Some(
                        ShellLaunchData::Executable {
                            executable_path: executable_path.clone(),
                            shell_type: *shell_type,
                        },
                    ),
                    None => None,
                },
                active_profile_id: copy_optional(&t.active_profile_id),
            },
        ),
        LeafContents::Settings(SettingsPaneSnapshot::Local { current_page, search_query }) => {
            LeafContents::Settings(
                SettingsPaneSnapshot::Local {
                    current_page: current_page.clone(),
                    search_query: copy_optional(search_query),
                },
            )
        },
        LeafContents::GetStarted => LeafContents::GetStarted,
        LeafContents::Welcome { startup_directory } => LeafContents::Welcome {
            startup_directory: copy_optional(startup_directory),
        },
        LeafContents::NetworkLog => LeafContents::NetworkLog,
    }
}

fn copy_leaf(l: &LeafSnapshot) -> (r: LeafSnapshot)
    ensures
        same_leaf(r, *l),
{
    LeafSnapshot {
        is_focused: l.is_focused,
        custom_vertical_tabs_title: copy_optional(&l.custom_vertical_tabs_title),
        contents: copy_contents(&l.contents),
    }
}

/// A copy of `node` and of all the nodes below it.
fn clone_node(node: &PaneNodeSnapshot) -> (r: PaneNodeSnapshot)
    ensures
        same_tree(r, *node),
    decreases node,
{
    match node {
        PaneNodeSnapshot::Leaf(l) => {
            PaneNodeSnapshot::Leaf(copy_leaf(l))
        },
        PaneNodeSnapshot::Branch(b) => {
            let n = b.children.len();
            let mut children: Vec<(PaneFlex, PaneNodeSnapshot)> = Vec::new();
            let mut i: usize = 0;
            while i < n
                invariant
                    0 <= i <= n,
                    n == b.children@.len(),
                    *node == PaneNodeSnapshot::Branch(*b),
                    children@.len() == i,
                    forall|j: int|
                        #![trigger children@[j]]
                        0 <= j < i ==> children@[j].0 == b.children@[j].0 && same_tree(
                            children@[j].1,
                            b.children@[j].1,
                        ),
                decreases n - i,
            {
                proof {
                    assert(decreases_to!(b.children => b.children[i as int])) by {
                        broadcast use vstd::std_specs::vec::axiom_vec_index_decreases;
                    }
                    assert(decreases_to!(*node => (*node)->Branch_0));
                    assert(decreases_to!(*b => b.children));
                    assert(decreases_to!(*node => b.children@[i as int].1));
                }
                let child = &b.children[i];
                let copy = clone_node(&child.1);
                let ghost before = children@;
                children.push((child.0, copy));
                proof {
                    assert forall|j: int| #![trigger children@[j]] 0 <= j < i + 1 implies children@[j].0
                        == b.children@[j].0 && same_tree(children@[j].1, b.children@[j].1) by {
                        if j < i {
                            assert(children@[j] == before[j]);
                        }
                    }
                }
                i = i + 1;
            }
            PaneNodeSnapshot::Branch(BranchSnapshot { direction: b.direction, children })
        },
    }
}

/// Whether two tabs are copies of each other.
pub open spec fn same_tab(a: TabSnapshot, b: TabSnapshot) -> bool {
    &&& a.custom_title == b.custom_title
    &&& a.default_directory_color == b.default_directory_color
    &&& a.selected_color == b.selected_color
    &&& same_tree(a.root, b.root)
    &&& a.left_panel == b.left_panel
    &&& a.right_panel == b.right_panel
}

/// Whether two windows are copies of each other: the same fields, and tabs
/// that are copies, in order.
pub open spec fn same_window(a: WindowSnapshot, b: WindowSnapshot) -> bool {
    &&& a.tabs@.len() == b.tabs@.len()
    &&& forall|i: int| 0 <= i < a.tabs@.len() ==> #[trigger] same_tab(a.tabs@[i], b.tabs@[i])
    &&& a.active_tab_index == b.active_tab_index
    &&& a.bounds == b.bounds
    &&& a.quake_mode == b.quake_mode
    &&& a.universal_search_width == b.universal_search_width
    &&& a.warp_ai_width == b.warp_ai_width
    &&& a.voltron_width == b.voltron_width
    &&& a.warp_drive_index_width == b.warp_drive_index_width
    &&& a.left_panel_open == b.left_panel_open
    &&& a.vertical_tabs_panel_open == b.vertical_tabs_panel_open
    &&& a.fullscreen_state == b.fullscreen_state
    &&& a.left_panel_width == b.left_panel_width
    &&& a.right_panel_width == b.right_panel_width
}

/// Whether two app states are copies of each other.
pub open spec fn same_app_state(a: AppState, b: AppState) -> bool {
    &&& a.windows@.len() == b.windows@.len()
    &&& forall|i: int|
        0 <= i < a.windows@.len() ==> #[trigger] same_window(a.windows@[i], b.windows@[i])
    &&& a.active_window_index == b.active_window_index
}

fn copy_panel(p: &Option<PanelSnapshot>) -> (r: Option<PanelSnapshot>)
    ensures
        r == *p,
{
    match p {
        Some(panel) => Some(PanelSnapshot { width: panel.width }),
        None => None,
    }
}

impl Clone for PaneNodeSnapshot {
    fn clone(&self) -> (r: Self)
        ensures
            same_tree(r, *self),
    {
        clone_node(self)
    }
}

impl Clone for TabSnapshot {
    fn clone(&self) -> (r: Self)
        ensures
            same_tab(r, *self),
    {
        TabSnapshot {
            custom_title: copy_optional(&self.custom_title),
            default_directory_color: self.default_directory_color,
            selected_color: self.selected_color,
            root: clone_node(&self.root),
            left_panel: copy_panel(&self.left_panel),
            right_panel: copy_panel(&self.right_panel),
        }
    }
}

impl Clone for WindowSnapshot {
    fn clone(&self) -> (r: Self)
        ensures
            same_window(r, *self),
    {
        let n = self.tabs.len();
        let mut tabs: Vec<TabSnapshot> = Vec::new();
        let mut i: usize = 0;
        while i < n
            invariant
                0 <= i <= n,
                n == self.tabs@.len(),
                tabs@.len() == i,
                forall|j: int| 0 <= j < i ==> #[trigger] same_tab(tabs@[j], self.tabs@[j]),
            decreases n - i,
        {
            let t = self.tabs[i].clone();
            let ghost before = tabs@;
            tabs.push(t);
            proof {
                assert forall|j: int| 0 <= j < i + 1 implies #[trigger] same_tab(
                    tabs@[j],
                    self.tabs@[j],
                ) by {
                    if j < i {
                        assert(tabs@[j] == before[j]);
                    }
                }
            }
            i = i + 1;
        }
        WindowSnapshot {
            tabs,
            active_tab_index: self.active_tab_index,
            bounds: self.bounds,
            quake_mode: self.quake_mode,
            universal_search_width: self.universal_search_width,
            warp_ai_width: self.warp_ai_width,
            voltron_width: self.voltron_width,
            warp_drive_index_width: self.warp_drive_index_width,
            left_panel_open: self.left_panel_open,
            vertical_tabs_panel_open: self.vertical_tabs_panel_open,
            fullscreen_state: self.fullscreen_state,
            left_panel_width: self.left_panel_width,
            right_panel_width: self.right_panel_width,
        }
    }
}

impl Clone for AppState {
    fn clone(&self) -> (r: Self)
        ensures
            same_app_state(r, *self),
    {
        let n = self.windows.len();
        let mut windows: Vec<WindowSnapshot> = Vec::new();
        let mut i: usize = 0;
        while i < n
            invariant
                0 <= i <= n,
                n == self.windows@.len(),
                windows@.len() == i,
                forall|j: int|
                    0 <= j < i ==> #[trigger] same_window(windows@[j], self.windows@[j]),
            decreases n - i,
        {
            let w = self.windows[i].clone();
            let ghost before = windows@;
            windows.push(w);
            proof {
                assert forall|j: int| 0 <= j < i + 1 implies #[trigger] same_window(
                    windows@[j],
                    self.windows@[j],
                ) by {
                    if j < i {
                        assert(windows@[j] == before[j]);
                    }
                }
            }
            i = i + 1;
        }
        AppState { windows, active_window_index: self.active_window_index }
    }
}

} // verus!
