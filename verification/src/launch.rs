//! How Rift starts: the launch mode and the decisions that depend on it,
//! and the handling of keyboard and URL input at startup.

use vstd::prelude::*;

use crate::app_state::AppState;

verus! {

/// The parts of a URL that the launch logic reads.
#[derive(Clone, Debug, PartialEq)]
pub struct UrlParts {
    pub scheme: String,
    pub host: Option<String>,
    pub path: String,
    /// The decoded query pairs, in order.
    pub query_pairs: Vec<(String, String)>,
}

/// A URL seen as (scheme, host, path, decoded query pairs).
pub type UrlView = (Seq<char>, Option<Seq<char>>, Seq<char>, Seq<(Seq<char>, Seq<char>)>);

/// The plain parts of `u`.
pub open spec fn url_view(u: UrlParts) -> UrlView {
    (
        u.scheme@,
        match u.host {
            Some(h) => Some(h@),
            None => None,
        },
        u.path@,
        u.query_pairs@.map_values(|p: (String, String)| (p.0@, p.1@)),
    )
}

/// The parts of the URL that `url::Url::parse` reads from `arg`, or `None`
/// when it rejects `arg`.
pub uninterp spec fn parsed_url(arg: Seq<char>) -> Option<UrlView>;

/// Calls `url::Url::parse` and hands back the parts of the URL that the
/// launch logic reads: the scheme, the host, the path and the decoded query
/// pairs. The contract claims only that they are the named parse of `arg`.
#[verifier::external_body]
pub(crate) fn parse_url(arg: &str) -> (r: Option<UrlParts>)
    ensures
        match r {
            Some(u) => parsed_url(arg@) == Some(url_view(u)),
            None => parsed_url(arg@) is None,
        },
{
    let url = url::Url::parse(arg).ok()?;
    Some(
        UrlParts {
            scheme: url.scheme().to_string(),
            host: url.host_str().map(str::to_string),
            path: url.path().to_string(),
            query_pairs: url.query_pairs().map(|(k, v)| (k.into_owned(), v.into_owned())).collect(),
        },
    )
}

/// The URLs among `args`, in order; an argument that is not a URL is
/// skipped.
pub open spec fn parsed_urls(args: Seq<Seq<char>>) -> Seq<UrlView>
    decreases args.len(),
{
    if args.len() == 0 {
        Seq::empty()
    } else {
        let before = parsed_urls(args.drop_last());
        match parsed_url(args.last()) {
            Some(u) => before.push(u),
            None => before,
        }
    }
}

/// The URLs given as `args` (command-line arguments, or URLs the system asks
/// the app to open), in order; the arguments that are not URLs are skipped.
pub fn parse_urls(args: &Vec<String>) -> (r: Vec<UrlParts>)
    ensures
        r@.map_values(|u: UrlParts| url_view(u)) == parsed_urls(
            args@.map_values(|s: String| s@),
        ),
{
    let mut r: Vec<UrlParts> = Vec::new();
    let mut i: usize = 0;
    let n = args.len();
    while i < n
        invariant
            0 <= i <= n,
            n == args@.len(),
            r@.map_values(|u: UrlParts| url_view(u)) == parsed_urls(
                args@.take(i as int).map_values(|s: String| s@),
            ),
        decreases n - i,
    {
        let ghost before = r@;
        proof {
            let v = args@.take(i + 1).map_values(|s: String| s@);
            assert(v.drop_last() =~= args@.take(i as int).map_values(|s: String| s@));
            assert(v.last() == args@[i as int]@);
        }
        match parse_url(args[i].as_str()) {
            Some(u) => {
                r.push(u);
                proof {
                    assert(r@.map_values(|u: UrlParts| url_view(u)) =~= before.map_values(
                        |u: UrlParts| url_view(u),
                    ).push(url_view(r@.last())));
                }
            },
            None => {},
        }
        i = i + 1;
    }
    proof {
        assert(args@.take(n as int) =~= args@);
    }
    r
}

/// How Rift was started.
#[derive(Clone, Debug, PartialEq)]
pub enum LaunchMode {
    /// The regular GUI application, with the URLs given on the command line.
    App { urls: Vec<UrlParts>, api_key: Option<String> },
    /// The command-line SDK. `agent_run_gui` is `Some(gui)` when the command
    /// runs an agent, with whether it asked for a GUI.
    CommandLine {
        agent_run_gui: Option<bool>,
        /// The API key given with the command's global options.
        api_key: Option<String>,
        debug: bool,
        is_sandboxed: bool,
        computer_use_override: Option<bool>,
    },
    /// An integration test or an eval.
    Test { is_integration_test: bool },
}

/// Which kind of program runs.
#[derive(Clone, Copy, Debug, PartialEq, Eq, Structural)]
pub enum ExecutionMode {
    App,
    Sdk,
}

/// Where logs go.
#[derive(Clone, Copy, Debug, PartialEq, Eq, Structural)]
pub enum LogDestination {
    Stderr,
    File,
}

impl LaunchMode {
    /// Whether this process runs an integration test.
    pub fn is_integration_test(&self) -> (r: bool)
        ensures
            r == (*self matches LaunchMode::Test { is_integration_test } && is_integration_test),
    {
        match self {
            LaunchMode::Test { is_integration_test } => *is_integration_test,
            LaunchMode::App { .. } | LaunchMode::CommandLine { .. } => false,
        }
    }

    /// The URLs to open: those of the command line for the application,
    /// none otherwise.
    pub fn urls(&self) -> (r: &[UrlParts])
        ensures
            match *self {
                LaunchMode::App { urls, .. } => r@ == urls@,
                _ => r@.len() == 0,
            },
    {
        match self {
            LaunchMode::App { urls, .. } => urls.as_slice(),
            LaunchMode::CommandLine { .. } | LaunchMode::Test { .. } => &[],
        }
    }

    /// Adds a URL to open; only the application opens URLs.
    pub fn add_url(&mut self, url: UrlParts)
        ensures
            match *old(self) {
                LaunchMode::App { urls, api_key } => *final(self) matches LaunchMode::App {
                    urls: u2,
                    api_key: k2,
                } && u2@ == urls@.push(url) && k2 == api_key,
                _ => *final(self) == *old(self),
            },
    {
        match self {
            LaunchMode::App { urls, .. } => urls.push(url),
            LaunchMode::CommandLine { .. } | LaunchMode::Test { .. } => {},
        }
    }

    pub fn execution_mode(&self) -> (r: ExecutionMode)
        ensures
            r == (if *self is CommandLine {
                ExecutionMode::Sdk
            } else {
                ExecutionMode::App
            }),
    {
        match self {
            LaunchMode::App { .. } => ExecutionMode::App,
            LaunchMode::CommandLine { .. } => ExecutionMode::Sdk,
            LaunchMode::Test { .. } => ExecutionMode::App,
        }
    }

    pub fn is_sandboxed(&self) -> (r: bool)
        ensures
            r == (*self matches LaunchMode::CommandLine { is_sandboxed, .. } && is_sandboxed),
    {
        match self {
            LaunchMode::CommandLine { is_sandboxed, .. } => *is_sandboxed,
            LaunchMode::App { .. } | LaunchMode::Test { .. } => false,
        }
    }

    /// Whether Rift runs without a visible UI: every command-line run but
    /// an agent run that asked for a GUI.
    pub fn is_headless(&self) -> (r: bool)
        ensures
            r == (*self matches LaunchMode::CommandLine { agent_run_gui, .. } && agent_run_gui
                != Some(true)),
    {
        match self {
            LaunchMode::CommandLine { agent_run_gui, .. } => match agent_run_gui {
                Some(gui) => !*gui,
                None => true,
            },
            LaunchMode::App { .. } | LaunchMode::Test { .. } => false,
        }
    }

    /// Whether a crash-recovery process is started (on platforms that have
    /// one): only for the application.
    pub fn crash_recovery_enabled(&self) -> (r: bool)
        ensures
            r == (*self is App),
    {
        match self {
            LaunchMode::App { .. } => true,
            LaunchMode::CommandLine { .. } | LaunchMode::Test { .. } => false,
        }
    }

    /// Whether crash reporting is initialized: in every mode.
    pub fn needs_crash_reporting(&self) -> (r: bool)
        ensures
            r,
    {
        match self {
            LaunchMode::App { .. } | LaunchMode::CommandLine { .. } | LaunchMode::Test { .. } => {
                true
            },
        }
    }

    /// Whether profiling and tracing are initialized: in every mode.
    pub fn needs_profiling(&self) -> (r: bool)
        ensures
            r,
    {
        match self {
            LaunchMode::App { .. } | LaunchMode::CommandLine { .. } | LaunchMode::Test { .. } => {
                true
            },
        }
    }

    /// Where logs go: the SDK logs to stderr when debugging and to a file
    /// otherwise; the other modes choose elsewhere.
    pub fn log_destination(&self) -> (r: Option<LogDestination>)
        ensures
            r == (match *self {
                LaunchMode::CommandLine { debug, .. } => Some(
                    if debug {
                        LogDestination::Stderr
                    } else {
                        LogDestination::File
                    },
                ),
                _ => None,
            }),
    {
        match self {
            LaunchMode::CommandLine { debug, .. } => {
                if *debug {
                    Some(LogDestination::Stderr)
                } else {
                    Some(LogDestination::File)
                }
            },
            LaunchMode::App { .. } | LaunchMode::Test { .. } => None,
        }
    }
}

/// Whether some pair of `q` is `source=web_home`.
pub open spec fn has_web_home_source(q: Seq<(String, String)>) -> bool {
    exists|k: int| 0 <= k < q.len() && q[k].0@ == "source"@ && #[trigger] q[k].1@ == "web_home"@
}

/// Whether `u` is the URL that starts a new cloud agent conversation from
/// the web home page.
pub open spec fn is_web_home_launch(u: UrlParts, app_scheme: Seq<char>) -> bool {
    &&& u.scheme@ == app_scheme
    &&& u.host matches Some(h) && h@ == "action"@
    &&& u.path@ == "/new_cloud_agent_conversation"@
    &&& has_web_home_source(u.query_pairs@)
}

fn str_equal(a: &str, b: &str) -> (r: bool)
    ensures
        r == (a@ == b@),
{
    let n = a.unicode_len();
    if n != b.unicode_len() {
        return false;
    }
    let mut i: usize = 0;
    while i < n
        invariant
            0 <= i <= n,
            n == a@.len(),
            n == b@.len(),
            forall|j: int| 0 <= j < i ==> a@[j] == b@[j],
        decreases n - i,
    {
        if a.get_char(i) != b.get_char(i) {
            return false;
        }
        i = i + 1;
    }
    proof {
        assert(a@ =~= b@);
    }
    true
}

/// Whether `url` starts a new cloud agent conversation from the web home
/// page, for the app's URL scheme `app_scheme`.
pub fn is_cloud_agent_web_home_launch_url(url: &UrlParts, app_scheme: &str) -> (r: bool)
    ensures
        r == is_web_home_launch(*url, app_scheme@),
{
    if !str_equal(url.scheme.as_str(), app_scheme) {
        return false;
    }
    let host_ok = match &url.host {
        Some(h) => str_equal(h.as_str(), "action"),
        None => false,
    };
    if !host_ok {
        return false;
    }
    if !str_equal(url.path.as_str(), "/new_cloud_agent_conversation") {
        return false;
    }
    let q = &url.query_pairs;
    let mut k: usize = 0;
    while k < q.len()
        invariant
            0 <= k <= q@.len(),
            q@ == url.query_pairs@,
            url.scheme@ == app_scheme@,
            url.host matches Some(h) && h@ == "action"@,
            url.path@ == "/new_cloud_agent_conversation"@,
            forall|j: int| 0 <= j < k ==> !(q@[j].0@ == "source"@ && q@[j].1@ == "web_home"@),
        decreases q@.len() - k,
    {
        if str_equal(q[k].0.as_str(), "source") && str_equal(q[k].1.as_str(), "web_home") {
            proof {
                assert(q@[k as int].0@ == "source"@);
                assert(q@[k as int].1@ == "web_home"@);
                assert(has_web_home_source(url.query_pairs@));
            }
            return true;
        }
        k = k + 1;
    }
    false
}

/// Whether restoring the saved windows is skipped: when one of the URLs
/// opens a new cloud agent conversation from the web home page.
pub fn should_skip_restore(urls: &[UrlParts], app_scheme: &str) -> (r: bool)
    ensures
        r == exists|k: int|
            0 <= k < urls@.len() && #[trigger] is_web_home_launch(urls@[k], app_scheme@),
{
    let mut k: usize = 0;
    while k < urls.len()
        invariant
            0 <= k <= urls@.len(),
            forall|j: int| 0 <= j < k ==> !is_web_home_launch(#[trigger] urls@[j], app_scheme@),
        decreases urls@.len() - k,
    {
        if is_cloud_agent_web_home_launch_url(&urls[k], app_scheme) {
            return true;
        }
        k = k + 1;
    }
    false
}

/// Which alt keys are treated as meta.
#[derive(Clone, Copy, Debug, PartialEq, Eq, Structural, Default)]
pub struct ExtraMetaKeys {
    pub left_alt: bool,
    pub right_alt: bool,
}

/// The modifiers of a keystroke.
#[derive(Clone, Copy, Debug, PartialEq, Eq, Structural, Default)]
pub struct KeystrokeModifiers {
    pub alt: bool,
    pub meta: bool,
}

/// Which alt key a key-down event came with.
#[derive(Clone, Copy, Debug, PartialEq, Eq, Structural, Default)]
pub struct AltKeys {
    pub left_alt: bool,
    pub right_alt: bool,
}

/// Which alt keys were turned into meta.
#[derive(Clone, Copy, Debug, PartialEq, Eq, Structural)]
pub enum MetaSide {
    Left,
    Right,
    Both,
}

/// Treats the alt of a key-down event as meta when that alt key is
/// configured to be meta: the alt modifier is removed and meta is set.
/// Returns which alt keys were converted, if any.
pub fn apply_extra_meta_keys(
    keystroke: &mut KeystrokeModifiers,
    pressed: AltKeys,
    extra_metas: ExtraMetaKeys,
) -> (r: Option<MetaSide>)
    ensures
        ({
            let left = extra_metas.left_alt && pressed.left_alt;
            let right = extra_metas.right_alt && pressed.right_alt;
            &&& r == (if left && right {
                Some(MetaSide::Both)
            } else if left {
                Some(MetaSide::Left)
            } else if right {
                Some(MetaSide::Right)
            } else {
                None
            })
            &&& (left || right) ==> *final(keystroke) == (KeystrokeModifiers { alt: false, meta: true })
            &&& !(left || right) ==> *final(keystroke) == *old(keystroke)
        }),
{
    let left_as_meta = extra_metas.left_alt && pressed.left_alt;
    let right_as_meta = extra_metas.right_alt && pressed.right_alt;
    if left_as_meta || right_as_meta {
        keystroke.alt = false;
        keystroke.meta = true;
        if left_as_meta && right_as_meta {
            Some(MetaSide::Both)
        } else if left_as_meta {
            Some(MetaSide::Left)
        } else {
            Some(MetaSide::Right)
        }
    } else {
        None
    }
}

impl MetaSide {
    /// How the side is named in the log.
    pub fn description(&self) -> (r: &'static str)
        ensures
            r@ == (match *self {
                MetaSide::Both => "left+right alt"@,
                MetaSide::Left => "left alt"@,
                MetaSide::Right => "right alt"@,
            }),
    {
        match self {
            MetaSide::Both => "left+right alt",
            MetaSide::Left => "left alt",
            MetaSide::Right => "right alt",
        }
    }
}

/// Whether the program was started as the standalone command-line tool, which
/// prints its help instead of starting the application: a standalone build,
/// a binary whose name starts with `oz`, or the CLI-mode environment
/// variable set.
pub open spec fn is_cli_binary_spec(
    standalone_build: bool,
    binary_name: Option<Seq<char>>,
    cli_mode_env_set: bool,
) -> bool {
    ||| standalone_build
    ||| binary_name matches Some(n) && n.len() >= 2 && n[0] == 'o' && n[1] == 'z'
    ||| cli_mode_env_set
}

/// See [`is_cli_binary_spec`].
pub fn is_cli_binary(standalone_build: bool, binary_name: Option<&str>, cli_mode_env_set: bool) -> (r:
    bool)
    ensures
        r == is_cli_binary_spec(
            standalone_build,
            match binary_name {
                Some(n) => Some(n@),
                None => None,
            },
            cli_mode_env_set,
        ),
{
    let named_oz = match binary_name {
        Some(n) => n.unicode_len() >= 2 && n.get_char(0) == 'o' && n.get_char(1) == 'z',
        None => false,
    };
    standalone_build || named_oz || cli_mode_env_set
}

/// What the platform reports before the application starts.
#[derive(Clone, Copy, Debug, PartialEq, Eq, Structural, Default)]
pub struct PlatformFacts {
    /// Whether integration tests asked for the real display.
    pub real_display_in_tests: bool,
    /// Whether the environment asks for Wayland.
    pub wayland_env_var_set: bool,
    /// The user's preference for X11.
    pub force_x11_preference: bool,
    /// Whether Rift runs in a Parallels virtual machine.
    pub is_parallels_vm: bool,
}

/// The decisions taken before the application's event loop starts.
#[derive(Clone, Copy, Debug, PartialEq, Eq, Structural)]
pub struct StartupPlan {
    pub init_profiling: bool,
    pub init_crash_reporting: bool,
    pub log_destination: Option<LogDestination>,
    /// Whether logging is set up for a command-line run.
    pub is_cli: bool,
    /// Whether the startup arguments are first offered to a running
    /// instance (in release bundles that support it).
    pub forward_to_existing_instance: bool,
    /// Whether the application runs without a window system.
    pub headless: bool,
    /// Whether the application takes focus when it starts (macOS).
    pub activate_on_launch: bool,
    /// Whether X11 is forced over Wayland (Linux).
    pub force_x11: bool,
    /// Whether DirectX shaders are compiled with DXC (Windows).
    pub use_dxc: bool,
}

impl LaunchMode {
    /// The decisions taken before the event loop starts, given what the
    /// platform reports.
    pub fn startup_plan(&self, facts: PlatformFacts) -> (r: StartupPlan)
        ensures
            r.init_profiling,
            r.init_crash_reporting,
            r.log_destination == (match *self {
                LaunchMode::CommandLine { debug, .. } => Some(
                    if debug {
                        LogDestination::Stderr
                    } else {
                        LogDestination::File
                    },
                ),
                _ => None,
            }),
            r.is_cli == (*self is CommandLine),
            r.forward_to_existing_instance == (*self is App),
            r.headless == (*self matches LaunchMode::CommandLine { agent_run_gui, .. }
                && agent_run_gui != Some(true)),
            r.activate_on_launch == (!(*self matches LaunchMode::Test { is_integration_test }
                && is_integration_test) || facts.real_display_in_tests),
            r.force_x11 == (!facts.wayland_env_var_set && facts.force_x11_preference),
            r.use_dxc == !facts.is_parallels_vm,
    {
        let log_destination = self.log_destination();
        let allow_wayland = facts.wayland_env_var_set || !facts.force_x11_preference;
        StartupPlan {
            init_profiling: self.needs_profiling(),
            init_crash_reporting: self.needs_crash_reporting(),
            log_destination,
            is_cli: log_destination.is_some(),
            forward_to_existing_instance: matches!(self, LaunchMode::App { .. }),
            headless: self.is_headless(),
            activate_on_launch: !self.is_integration_test() || facts.real_display_in_tests,
            force_x11: !allow_wayland,
            use_dxc: !facts.is_parallels_vm,
        }
    }
}

/// What came of offering the startup arguments to a running instance.
#[derive(Clone, Copy, Debug, PartialEq, Eq, Structural)]
pub enum ForwardingResult {
    /// A running instance took them.
    Forwarded,
    NoExistingInstance,
    /// Ignored because an update was just installed.
    IgnoredAfterAutoUpdate,
    /// Forwarding failed for another reason.
    Failed,
}

/// What this process does after offering its startup arguments.
#[derive(Clone, Copy, Debug, PartialEq, Eq, Structural)]
pub enum ForwardingDecision {
    /// Another instance runs: this one exits, so that only one runs.
    Exit,
    Continue,
    /// Run anyway, and report the failure once crash reporting is up.
    ContinueAndReport,
}

/// Only one instance runs at a time, but a failure to reach a running
/// instance never stops this one from starting.
pub fn forwarding_decision(result: ForwardingResult) -> (r: ForwardingDecision)
    ensures
        r == (match result {
            ForwardingResult::Forwarded => ForwardingDecision::Exit,
            ForwardingResult::NoExistingInstance => ForwardingDecision::Continue,
            ForwardingResult::IgnoredAfterAutoUpdate => ForwardingDecision::Continue,
            ForwardingResult::Failed => ForwardingDecision::ContinueAndReport,
        }),
{
    match result {
        ForwardingResult::Forwarded => ForwardingDecision::Exit,
        ForwardingResult::NoExistingInstance => ForwardingDecision::Continue,
        ForwardingResult::IgnoredAfterAutoUpdate => ForwardingDecision::Continue,
        ForwardingResult::Failed => ForwardingDecision::ContinueAndReport,
    }
}

impl LaunchMode {
    /// The API key the session authenticates with: the command line's for a
    /// command-line run, the application's own only on the dogfood channel,
    /// and none at all unless API-key authentication is enabled.
    pub fn startup_api_key(&self, is_dogfood_channel: bool, api_key_auth_enabled: bool) -> (r:
        Option<String>)
        ensures
            r == (if !api_key_auth_enabled {
                None
            } else {
                match *self {
                    LaunchMode::CommandLine { api_key, .. } => api_key,
                    LaunchMode::App { api_key, .. } => if is_dogfood_channel {
                        api_key
                    } else {
                        None
                    },
                    LaunchMode::Test { .. } => None,
                }
            }),
    {
        let api_key = match self {
            LaunchMode::CommandLine { api_key, .. } => clone_key(api_key),
            LaunchMode::App { api_key, .. } => if is_dogfood_channel {
                clone_key(api_key)
            } else {
                None
            },
            LaunchMode::Test { .. } => None,
        };
        if api_key_auth_enabled {
            api_key
        } else {
            None
        }
    }

    /// Whether the signed-in user's record is refreshed at startup: for a
    /// signed-in user, except in a command-line run, which refreshes it
    /// itself before running its command.
    pub fn refreshes_user_at_startup(&self, user_is_logged_in: bool) -> (r: bool)
        ensures
            r == (user_is_logged_in && !(*self is CommandLine)),
    {
        user_is_logged_in && !matches!(self, LaunchMode::CommandLine { .. })
    }
}

fn clone_key(k: &Option<String>) -> (r: Option<String>)
    ensures
        r == *k,
{
    match k {
        Some(v) => Some(v.clone()),
        None => None,
    }
}

impl LaunchMode {
    /// The saved state to restore windows from at launch: none when one of
    /// the command line's URLs opens a new cloud agent conversation from the
    /// web home page, the saved state otherwise.
    pub fn state_to_restore(&self, app_state: Option<AppState>, app_scheme: &str) -> (r: Option<
        AppState,
    >)
        ensures
            r == (if exists|k: int|
                0 <= k < self.urls_spec().len() && #[trigger] is_web_home_launch(
                    self.urls_spec()[k],
                    app_scheme@,
                ) {
                None
            } else {
                app_state
            }),
    {
        let urls = self.urls();
        proof {
            assert(urls@ =~= self.urls_spec());
        }
        if should_skip_restore(urls, app_scheme) {
            None
        } else {
            app_state
        }
    }

    /// The URLs given on the command line (none outside the application).
    pub open spec fn urls_spec(&self) -> Seq<UrlParts> {
        match *self {
            LaunchMode::App { urls, .. } => urls@,
            _ => Seq::empty(),
        }
    }
}

} // verus!
