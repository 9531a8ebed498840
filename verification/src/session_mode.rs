//! What a new session opens: a plain terminal, or a tab configuration that
//! the user picked.

use vstd::prelude::*;

verus! {

/// The default mode for new sessions.
#[derive(Debug, PartialEq, Eq, Copy, Clone, Structural)]
pub enum DefaultSessionMode {
    /// New sessions start in a terminal (the default).
    Terminal,
    /// New sessions open a user-defined tab configuration, the one named by
    /// the `default_tab_config_path` setting.
    TabConfig,
}

impl Default for DefaultSessionMode {
    fn default() -> (r: Self)
        ensures
            r == DefaultSessionMode::Terminal,
    {
        DefaultSessionMode::Terminal
    }
}

impl DefaultSessionMode {
    /// The name shown in the settings.
    pub fn display_name(&self) -> (r: &'static str)
        ensures
            r@ == (match *self {
                DefaultSessionMode::Terminal => "Terminal"@,
                DefaultSessionMode::TabConfig => "Tab Config"@,
            }),
    {
        match self {
            DefaultSessionMode::Terminal => "Terminal",
            DefaultSessionMode::TabConfig => "Tab Config",
        }
    }
}

/// Whether two path strings name the same path, compared component by
/// component as `std::path::Path` compares them.
pub uninterp spec fn same_path(a: Seq<char>, b: Seq<char>) -> bool;

/// Compares two paths with `std::path::Path`'s `==`.
#[verifier::external_body]
pub(crate) fn paths_equal(a: &str, b: &str) -> (r: bool)
    ensures
        r == same_path(a@, b@),
{
    std::path::Path::new(a) == std::path::Path::new(b)
}

/// The settings of the session-mode group.
#[derive(Debug, Clone, PartialEq)]
pub struct SessionModeSettings {
    /// The stored default mode; read it through `default_session_mode`.
    pub default_session_mode_internal: DefaultSessionMode,
    /// The path of the tab configuration opened when the mode is
    /// `TabConfig`.
    pub default_tab_config_path: String,
}

impl Default for SessionModeSettings {
    fn default() -> (r: Self)
        ensures
            r.default_session_mode_internal == DefaultSessionMode::Terminal,
            r.default_tab_config_path@ == Seq::<char>::empty(),
    {
        SessionModeSettings {
            default_session_mode_internal: DefaultSessionMode::Terminal,
            default_tab_config_path: String::new(),
        }
    }
}

/// The position of the first configuration loaded from `path`, if any.
pub open spec fn first_config_from(paths: Seq<Option<String>>, path: Seq<char>) -> Option<int>
    decreases paths.len(),
{
    if paths.len() == 0 {
        None
    } else {
        match first_config_from(paths.drop_last(), path) {
            Some(i) => Some(i),
            None => if paths.last() matches Some(p) && same_path(p@, path) {
                Some(paths.len() - 1)
            } else {
                None
            },
        }
    }
}

proof fn lemma_first_config_from_prefix(paths: Seq<Option<String>>, path: Seq<char>, k: int)
    requires
        0 <= k <= paths.len(),
        first_config_from(paths.take(k), path) is Some,
    ensures
        first_config_from(paths, path) == first_config_from(paths.take(k), path),
    decreases paths.len() - k,
{
    if k < paths.len() {
        assert(paths.take(k + 1).drop_last() =~= paths.take(k));
        lemma_first_config_from_prefix(paths, path, k + 1);
    } else {
        assert(paths.take(k) =~= paths);
    }
}

impl SessionModeSettings {
    /// The effective default mode for new sessions.
    pub fn default_session_mode(&self) -> (r: DefaultSessionMode)
        ensures
            r == self.default_session_mode_internal,
    {
        self.default_session_mode_internal
    }

    /// The stored path of the default tab configuration (meaningful only
    /// when the mode is `TabConfig`).
    pub fn default_tab_config_path(&self) -> (r: &str)
        ensures
            r@ == self.default_tab_config_path@,
    {
        self.default_tab_config_path.as_str()
    }

    /// Which of the loaded tab configurations, given by the paths they were
    /// loaded from, is the default one: none when the stored path is empty,
    /// and otherwise the first loaded from that path.
    pub fn resolved_default_tab_config_index(&self, source_paths: &Vec<Option<String>>) -> (r:
        Option<usize>)
        ensures
            self.default_tab_config_path@.len() == 0 ==> r is None,
            self.default_tab_config_path@.len() > 0 ==> match first_config_from(
                source_paths@,
                self.default_tab_config_path@,
            ) {
                Some(i) => r == Some(i as usize),
                None => r is None,
            },
    {
        let path = self.default_tab_config_path.as_str();
        if path.is_empty() {
            return None;
        }
        let n = source_paths.len();
        let mut i: usize = 0;
        while i < n
            invariant
                0 <= i <= n,
                n == source_paths@.len(),
                path@ == self.default_tab_config_path@,
                path@.len() > 0,
                first_config_from(source_paths@.take(i as int), path@) is None,
            decreases n - i,
        {
            proof {
                assert(source_paths@.take(i + 1).drop_last() =~= source_paths@.take(i as int));
                assert(source_paths@.take(i + 1).last() == source_paths@[i as int]);
            }
            let found = match &source_paths[i] {
                Some(p) => paths_equal(p.as_str(), path),
                None => false,
            };
            if found {
                proof {
                    assert(first_config_from(source_paths@.take(i + 1), path@) == Some(i as int));
                    lemma_first_config_from_prefix(source_paths@, path@, i + 1);
                }
                return Some(i);
            }
            i = i + 1;
        }
        proof {
            assert(source_paths@.take(n as int) =~= source_paths@);
        }
        None
    }
}

} // verus!
