//! The formerly server-driven experiments. Only their names survive: the
//! local database still stores and loads experiment rows by name.

use vstd::prelude::*;
use vstd::string::*;

verus! {

/// An experiment a user could be enrolled in.
#[derive(Clone, Copy, Debug, Hash, PartialEq, Eq, Structural)]
pub enum ServerExperiment {
    EnvVarsEarlyAccessExperiment,
    WindowsLaunchExperiment,
    TmuxSshRiftificationControl,
    TmuxSshRiftificationExperiment,
    CodebaseContextExperiment,
    CodebaseContextControl,
    SuggestedCodeDiffsControl,
    SuggestedCodeDiffsExperiment,
    BuildPlanAutoReloadControl,
    BuildPlanAutoReloadBannerToggle,
    BuildPlanAutoReloadPostPurchaseModal,
    PromptSuggestionsViaMaaControl,
    PromptSuggestionsViaMaaExperiment,
    PromptSuggestionsViaMaaOutOfBandExperiment,
    FreeUserNoAiControl,
    FreeUserNoAiExperiment,
    OzMultiHarnessControl,
    OzMultiHarnessExperiment,
}

/// The error for a name that is no experiment's.
#[derive(Clone, Debug, PartialEq)]
pub struct UnknownServerExperiment {
    pub name: String,
}

/// The name under which an experiment is stored.
pub open spec fn experiment_name(e: ServerExperiment) -> Seq<char> {
    match e {
        ServerExperiment::EnvVarsEarlyAccessExperiment => "ENV_VARS_EARLY_ACCESS_EXPERIMENT"@,
        ServerExperiment::WindowsLaunchExperiment => "WINDOWS_LAUNCH_EXPERIMENT"@,
        ServerExperiment::TmuxSshRiftificationControl => "TMUX_SSH_RIFTIFICATION_CONTROL"@,
        ServerExperiment::TmuxSshRiftificationExperiment => "TMUX_SSH_RIFTIFICATION_EXPERIMENT"@,
        ServerExperiment::CodebaseContextExperiment => "CODEBASE_CONTEXT_EXPERIMENT"@,
        ServerExperiment::CodebaseContextControl => "CODEBASE_CONTEXT_CONTROL"@,
        ServerExperiment::SuggestedCodeDiffsControl => "SUGGESTED_CODE_DIFFS_CONTROL"@,
        ServerExperiment::SuggestedCodeDiffsExperiment => "SUGGESTED_CODE_DIFFS_EXPERIMENT"@,
        ServerExperiment::BuildPlanAutoReloadControl => "BUILD_PLAN_AUTO_RELOAD_CONTROL"@,
        ServerExperiment::BuildPlanAutoReloadBannerToggle => "BUILD_PLAN_AUTO_RELOAD_BANNER_TOGGLE"@,
        ServerExperiment::BuildPlanAutoReloadPostPurchaseModal => "BUILD_PLAN_AUTO_RELOAD_POST_PURCHASE_MODAL"@,
        ServerExperiment::PromptSuggestionsViaMaaControl => "PROMPT_SUGGESTIONS_VIA_MAA_CONTROL"@,
        ServerExperiment::PromptSuggestionsViaMaaExperiment => "PROMPT_SUGGESTIONS_VIA_MAA_EXPERIMENT"@,
        ServerExperiment::PromptSuggestionsViaMaaOutOfBandExperiment => "PROMPT_SUGGESTIONS_VIA_MAA_OOB_EXPERIMENT"@,
        ServerExperiment::FreeUserNoAiControl => "FREE_USER_NO_AI_CONTROL"@,
        ServerExperiment::FreeUserNoAiExperiment => "FREE_USER_NO_AI_EXPERIMENT"@,
        ServerExperiment::OzMultiHarnessControl => "OZ_MULTI_HARNESS_CONTROL"@,
        ServerExperiment::OzMultiHarnessExperiment => "OZ_MULTI_HARNESS_EXPERIMENT"@,
    }
}

/// The experiment stored under `s`, if any.
pub open spec fn experiment_from_name(s: Seq<char>) -> Option<ServerExperiment> {
    if s == "ENV_VARS_EARLY_ACCESS_EXPERIMENT"@ {
        Some(ServerExperiment::EnvVarsEarlyAccessExperiment)
    } else if s == "WINDOWS_LAUNCH_EXPERIMENT"@ {
        Some(ServerExperiment::WindowsLaunchExperiment)
    } else if s == "TMUX_SSH_RIFTIFICATION_CONTROL"@ {
        Some(ServerExperiment::TmuxSshRiftificationControl)
    } else if s == "TMUX_SSH_RIFTIFICATION_EXPERIMENT"@ {
        Some(ServerExperiment::TmuxSshRiftificationExperiment)
    } else if s == "CODEBASE_CONTEXT_EXPERIMENT"@ {
        Some(ServerExperiment::CodebaseContextExperiment)
    } else if s == "CODEBASE_CONTEXT_CONTROL"@ {
        Some(ServerExperiment::CodebaseContextControl)
    } else if s == "SUGGESTED_CODE_DIFFS_CONTROL"@ {
        Some(ServerExperiment::SuggestedCodeDiffsControl)
    } else if s == "SUGGESTED_CODE_DIFFS_EXPERIMENT"@ {
        Some(ServerExperiment::SuggestedCodeDiffsExperiment)
    } else if s == "BUILD_PLAN_AUTO_RELOAD_CONTROL"@ {
        Some(ServerExperiment::BuildPlanAutoReloadControl)
    } else if s == "BUILD_PLAN_AUTO_RELOAD_BANNER_TOGGLE"@ {
        Some(ServerExperiment::BuildPlanAutoReloadBannerToggle)
    } else if s == "BUILD_PLAN_AUTO_RELOAD_POST_PURCHASE_MODAL"@ {
        Some(ServerExperiment::BuildPlanAutoReloadPostPurchaseModal)
    } else if s == "PROMPT_SUGGESTIONS_VIA_MAA_CONTROL"@ {
        Some(ServerExperiment::PromptSuggestionsViaMaaControl)
    } else if s == "PROMPT_SUGGESTIONS_VIA_MAA_EXPERIMENT"@ {
        Some(ServerExperiment::PromptSuggestionsViaMaaExperiment)
    } else if s == "FREE_USER_NO_AI_CONTROL"@ {
        Some(ServerExperiment::FreeUserNoAiControl)
    } else if s == "FREE_USER_NO_AI_EXPERIMENT"@ {
        Some(ServerExperiment::FreeUserNoAiExperiment)
    } else if s == "OZ_MULTI_HARNESS_CONTROL"@ {
        Some(ServerExperiment::OzMultiHarnessControl)
    } else if s == "OZ_MULTI_HARNESS_EXPERIMENT"@ {
        Some(ServerExperiment::OzMultiHarnessExperiment)
    } else if s == "PROMPT_SUGGESTIONS_VIA_MAA_OOB_EXPERIMENT"@ {
        Some(ServerExperiment::PromptSuggestionsViaMaaOutOfBandExperiment)
    } else {
        None
    }
}

/// Whether `a` and `b` hold the same characters.
fn str_eq(a: &str, b: &str) -> (r: bool)
    ensures
        r == (a@ == b@),
{
    let n = a.unicode_len();
    if n != b.unicode_len() {
        return false;
    }
    let mut i: usize = 0;
    while i < n
        invariant
            0 <= i <= n,
            n == a@.len(),
            n == b@.len(),
            forall|j: int| 0 <= j < i ==> a@[j] == b@[j],
        decreases n - i,
    {
        if a.get_char(i) != b.get_char(i) {
            return false;
        }
        i = i + 1;
    }
    proof {
        assert(a@ =~= b@);
    }
    true
}

impl ServerExperiment {
    /// The name under which the experiment is stored.
    pub fn name(&self) -> (r: &'static str)
        ensures
            r@ == experiment_name(*self),
    {
        match self {
            ServerExperiment::EnvVarsEarlyAccessExperiment => "ENV_VARS_EARLY_ACCESS_EXPERIMENT",
            ServerExperiment::WindowsLaunchExperiment => "WINDOWS_LAUNCH_EXPERIMENT",
            ServerExperiment::TmuxSshRiftificationControl => "TMUX_SSH_RIFTIFICATION_CONTROL",
            ServerExperiment::TmuxSshRiftificationExperiment => "TMUX_SSH_RIFTIFICATION_EXPERIMENT",
            ServerExperiment::CodebaseContextExperiment => "CODEBASE_CONTEXT_EXPERIMENT",
            ServerExperiment::CodebaseContextControl => "CODEBASE_CONTEXT_CONTROL",
            ServerExperiment::SuggestedCodeDiffsControl => "SUGGESTED_CODE_DIFFS_CONTROL",
            ServerExperiment::SuggestedCodeDiffsExperiment => "SUGGESTED_CODE_DIFFS_EXPERIMENT",
            ServerExperiment::BuildPlanAutoReloadControl => "BUILD_PLAN_AUTO_RELOAD_CONTROL",
            ServerExperiment::BuildPlanAutoReloadBannerToggle => "BUILD_PLAN_AUTO_RELOAD_BANNER_TOGGLE",
            ServerExperiment::BuildPlanAutoReloadPostPurchaseModal => "BUILD_PLAN_AUTO_RELOAD_POST_PURCHASE_MODAL",
            ServerExperiment::PromptSuggestionsViaMaaControl => "PROMPT_SUGGESTIONS_VIA_MAA_CONTROL",
            ServerExperiment::PromptSuggestionsViaMaaExperiment => "PROMPT_SUGGESTIONS_VIA_MAA_EXPERIMENT",
            ServerExperiment::PromptSuggestionsViaMaaOutOfBandExperiment => "PROMPT_SUGGESTIONS_VIA_MAA_OOB_EXPERIMENT",
            ServerExperiment::FreeUserNoAiControl => "FREE_USER_NO_AI_CONTROL",
            ServerExperiment::FreeUserNoAiExperiment => "FREE_USER_NO_AI_EXPERIMENT",
            ServerExperiment::OzMultiHarnessControl => "OZ_MULTI_HARNESS_CONTROL",
            ServerExperiment::OzMultiHarnessExperiment => "OZ_MULTI_HARNESS_EXPERIMENT",
        }
    }

    /// The name of the experiment, as a `String` (its `Display` form).
    pub fn to_string(&self) -> (r: String)
        ensures
            r@ == experiment_name(*self),
    {
        String::from_str(self.name())
    }

    /// Reads an experiment back from its stored name.
    pub fn from_string(s: String) -> (r: Result<Self, UnknownServerExperiment>)
        ensures
            match r {
                Ok(e) => experiment_from_name(s@) == Some(e),
                Err(err) => experiment_from_name(s@) is None && err.name@ == s@,
            },
    {
        let t = s.as_str();
        if str_eq(t, "ENV_VARS_EARLY_ACCESS_EXPERIMENT") {
            Ok(ServerExperiment::EnvVarsEarlyAccessExperiment)
        } else if str_eq(t, "WINDOWS_LAUNCH_EXPERIMENT") {
            Ok(ServerExperiment::WindowsLaunchExperiment)
        } else if str_eq(t, "TMUX_SSH_RIFTIFICATION_CONTROL") {
            Ok(ServerExperiment::TmuxSshRiftificationControl)
        } else if str_eq(t, "TMUX_SSH_RIFTIFICATION_EXPERIMENT") {
            Ok(ServerExperiment::TmuxSshRiftificationExperiment)
        } else if str_eq(t, "CODEBASE_CONTEXT_EXPERIMENT") {
            Ok(ServerExperiment::CodebaseContextExperiment)
        } else if str_eq(t, "CODEBASE_CONTEXT_CONTROL") {
            Ok(ServerExperiment::CodebaseContextControl)
        } else if str_eq(t, "SUGGESTED_CODE_DIFFS_CONTROL") {
            Ok(ServerExperiment::SuggestedCodeDiffsControl)
        } else if str_eq(t, "SUGGESTED_CODE_DIFFS_EXPERIMENT") {
            Ok(ServerExperiment::SuggestedCodeDiffsExperiment)
        } else if str_eq(t, "BUILD_PLAN_AUTO_RELOAD_CONTROL") {
            Ok(ServerExperiment::BuildPlanAutoReloadControl)
        } else if str_eq(t, "BUILD_PLAN_AUTO_RELOAD_BANNER_TOGGLE") {
            Ok(ServerExperiment::BuildPlanAutoReloadBannerToggle)
        } else if str_eq(t, "BUILD_PLAN_AUTO_RELOAD_POST_PURCHASE_MODAL") {
            Ok(ServerExperiment::BuildPlanAutoReloadPostPurchaseModal)
        } else if str_eq(t, "PROMPT_SUGGESTIONS_VIA_MAA_CONTROL") {
            Ok(ServerExperiment::PromptSuggestionsViaMaaControl)
        } else if str_eq(t, "PROMPT_SUGGESTIONS_VIA_MAA_EXPERIMENT") {
            Ok(ServerExperiment::PromptSuggestionsViaMaaExperiment)
        } else if str_eq(t, "FREE_USER_NO_AI_CONTROL") {
            Ok(ServerExperiment::FreeUserNoAiControl)
        } else if str_eq(t, "FREE_USER_NO_AI_EXPERIMENT") {
            Ok(ServerExperiment::FreeUserNoAiExperiment)
        } else if str_eq(t, "OZ_MULTI_HARNESS_CONTROL") {
            Ok(ServerExperiment::OzMultiHarnessControl)
        } else if str_eq(t, "OZ_MULTI_HARNESS_EXPERIMENT") {
            Ok(ServerExperiment::OzMultiHarnessExperiment)
        } else if str_eq(t, "PROMPT_SUGGESTIONS_VIA_MAA_OOB_EXPERIMENT") {
            Ok(ServerExperiment::PromptSuggestionsViaMaaOutOfBandExperiment)
        } else {
            Err(UnknownServerExperiment { name: s })
        }
    }
}

impl UnknownServerExperiment {
    /// The error message.
    pub fn message(&self) -> (r: String)
        ensures
            r@ == "String doesn't match any server experiment variant "@ + self.name@,
    {
        let mut m = String::from_str("String doesn't match any server experiment variant ");
        m.append(self.name.as_str());
        m
    }
}

/// Reading back the stored name of an experiment gives that experiment.
pub proof fn lemma_experiment_name_round_trip(e: ServerExperiment)
    ensures
        experiment_from_name(experiment_name(e)) == Some(e),
{
    // Each name differs from every name tested before it, in its length or in one character.
    match e {
        ServerExperiment::EnvVarsEarlyAccessExperiment => {
            reveal_strlit("ENV_VARS_EARLY_ACCESS_EXPERIMENT");
        },
        ServerExperiment::WindowsLaunchExperiment => {
            reveal_strlit("WINDOWS_LAUNCH_EXPERIMENT");
            reveal_strlit("ENV_VARS_EARLY_ACCESS_EXPERIMENT");
            assert("WINDOWS_LAUNCH_EXPERIMENT"@.len() != "ENV_VARS_EARLY_ACCESS_EXPERIMENT"@.len());
        },
        ServerExperiment::TmuxSshRiftificationControl => {
            reveal_strlit("TMUX_SSH_RIFTIFICATION_CONTROL");
            reveal_strlit("ENV_VARS_EARLY_ACCESS_EXPERIMENT");
            assert("TMUX_SSH_RIFTIFICATION_CONTROL"@.len() != "ENV_VARS_EARLY_ACCESS_EXPERIMENT"@.len());
            reveal_strlit("WINDOWS_LAUNCH_EXPERIMENT");
            assert("TMUX_SSH_RIFTIFICATION_CONTROL"@.len() != "WINDOWS_LAUNCH_EXPERIMENT"@.len());
        },
        ServerExperiment::TmuxSshRiftificationExperiment => {
            reveal_strlit("TMUX_SSH_RIFTIFICATION_EXPERIMENT");
            reveal_strlit("ENV_VARS_EARLY_ACCESS_EXPERIMENT");
            assert("TMUX_SSH_RIFTIFICATION_EXPERIMENT"@.len() != "ENV_VARS_EARLY_ACCESS_EXPERIMENT"@.len());
            reveal_strlit("WINDOWS_LAUNCH_EXPERIMENT");
            assert("TMUX_SSH_RIFTIFICATION_EXPERIMENT"@.len() != "WINDOWS_LAUNCH_EXPERIMENT"@.len());
            reveal_strlit("TMUX_SSH_RIFTIFICATION_CONTROL");
            assert("TMUX_SSH_RIFTIFICATION_EXPERIMENT"@.len() != "TMUX_SSH_RIFTIFICATION_CONTROL"@.len());
        },
        ServerExperiment::CodebaseContextExperiment => {
            reveal_strlit("CODEBASE_CONTEXT_EXPERIMENT");
            reveal_strlit("ENV_VARS_EARLY_ACCESS_EXPERIMENT");
            assert("CODEBASE_CONTEXT_EXPERIMENT"@.len() != "ENV_VARS_EARLY_ACCESS_EXPERIMENT"@.len());
            reveal_strlit("WINDOWS_LAUNCH_EXPERIMENT");
            assert("CODEBASE_CONTEXT_EXPERIMENT"@.len() != "WINDOWS_LAUNCH_EXPERIMENT"@.len());
            reveal_strlit("TMUX_SSH_RIFTIFICATION_CONTROL");
            assert("CODEBASE_CONTEXT_EXPERIMENT"@.len() != "TMUX_SSH_RIFTIFICATION_CONTROL"@.len());
            reveal_strlit("TMUX_SSH_RIFTIFICATION_EXPERIMENT");
            assert("CODEBASE_CONTEXT_EXPERIMENT"@.len() != "TMUX_SSH_RIFTIFICATION_EXPERIMENT"@.len());
        },
        ServerExperiment::CodebaseContextControl => {
            reveal_strlit("CODEBASE_CONTEXT_CONTROL");
            reveal_strlit("ENV_VARS_EARLY_ACCESS_EXPERIMENT");
            assert("CODEBASE_CONTEXT_CONTROL"@.len() != "ENV_VARS_EARLY_ACCESS_EXPERIMENT"@.len());
            reveal_strlit("WINDOWS_LAUNCH_EXPERIMENT");
            assert("CODEBASE_CONTEXT_CONTROL"@.len() != "WINDOWS_LAUNCH_EXPERIMENT"@.len());
            reveal_strlit("TMUX_SSH_RIFTIFICATION_CONTROL");
            assert("CODEBASE_CONTEXT_CONTROL"@.len() != "TMUX_SSH_RIFTIFICATION_CONTROL"@.len());
            reveal_strlit("TMUX_SSH_RIFTIFICATION_EXPERIMENT");
            assert("CODEBASE_CONTEXT_CONTROL"@.len() != "TMUX_SSH_RIFTIFICATION_EXPERIMENT"@.len());
            reveal_strlit("CODEBASE_CONTEXT_EXPERIMENT");
            assert("CODEBASE_CONTEXT_CONTROL"@.len() != "CODEBASE_CONTEXT_EXPERIMENT"@.len());
        },
        ServerExperiment::SuggestedCodeDiffsControl => {
            reveal_strlit("SUGGESTED_CODE_DIFFS_CONTROL");
            reveal_strlit("ENV_VARS_EARLY_ACCESS_EXPERIMENT");
            assert("SUGGESTED_CODE_DIFFS_CONTROL"@.len() != "ENV_VARS_EARLY_ACCESS_EXPERIMENT"@.len());
            reveal_strlit("WINDOWS_LAUNCH_EXPERIMENT");
            assert("SUGGESTED_CODE_DIFFS_CONTROL"@.len() != "WINDOWS_LAUNCH_EXPERIMENT"@.len());
            reveal_strlit("TMUX_SSH_RIFTIFICATION_CONTROL");
            assert("SUGGESTED_CODE_DIFFS_CONTROL"@.len() != "TMUX_SSH_RIFTIFICATION_CONTROL"@.len());
            reveal_strlit("TMUX_SSH_RIFTIFICATION_EXPERIMENT");
            assert("SUGGESTED_CODE_DIFFS_CONTROL"@.len() != "TMUX_SSH_RIFTIFICATION_EXPERIMENT"@.len());
            reveal_strlit("CODEBASE_CONTEXT_EXPERIMENT");
            assert("SUGGESTED_CODE_DIFFS_CONTROL"@.len() != "CODEBASE_CONTEXT_EXPERIMENT"@.len());
            reveal_strlit("CODEBASE_CONTEXT_CONTROL");
            assert("SUGGESTED_CODE_DIFFS_CONTROL"@.len() != "CODEBASE_CONTEXT_CONTROL"@.len());
        },
        ServerExperiment::SuggestedCodeDiffsExperiment => {
            reveal_strlit("SUGGESTED_CODE_DIFFS_EXPERIMENT");
            reveal_strlit("ENV_VARS_EARLY_ACCESS_EXPERIMENT");
            assert("SUGGESTED_CODE_DIFFS_EXPERIMENT"@.len() != "ENV_VARS_EARLY_ACCESS_EXPERIMENT"@.len());
            reveal_strlit("WINDOWS_LAUNCH_EXPERIMENT");
            assert("SUGGESTED_CODE_DIFFS_EXPERIMENT"@.len() != "WINDOWS_LAUNCH_EXPERIMENT"@.len());
            reveal_strlit("TMUX_SSH_RIFTIFICATION_CONTROL");
            assert("SUGGESTED_CODE_DIFFS_EXPERIMENT"@.len() != "TMUX_SSH_RIFTIFICATION_CONTROL"@.len());
            reveal_strlit("TMUX_SSH_RIFTIFICATION_EXPERIMENT");
            assert("SUGGESTED_CODE_DIFFS_EXPERIMENT"@.len() != "TMUX_SSH_RIFTIFICATION_EXPERIMENT"@.len());
            reveal_strlit("CODEBASE_CONTEXT_EXPERIMENT");
            assert("SUGGESTED_CODE_DIFFS_EXPERIMENT"@.len() != "CODEBASE_CONTEXT_EXPERIMENT"@.len());
            reveal_strlit("CODEBASE_CONTEXT_CONTROL");
            assert("SUGGESTED_CODE_DIFFS_EXPERIMENT"@.len() != "CODEBASE_CONTEXT_CONTROL"@.len());
            reveal_strlit("SUGGESTED_CODE_DIFFS_CONTROL");
            assert("SUGGESTED_CODE_DIFFS_EXPERIMENT"@.len() != "SUGGESTED_CODE_DIFFS_CONTROL"@.len());
        },
        ServerExperiment::BuildPlanAutoReloadControl => {
            reveal_strlit("BUILD_PLAN_AUTO_RELOAD_CONTROL");
            reveal_strlit("ENV_VARS_EARLY_ACCESS_EXPERIMENT");
            assert("BUILD_PLAN_AUTO_RELOAD_CONTROL"@.len() != "ENV_VARS_EARLY_ACCESS_EXPERIMENT"@.len());
            reveal_strlit("WINDOWS_LAUNCH_EXPERIMENT");
            assert("BUILD_PLAN_AUTO_RELOAD_CONTROL"@.len() != "WINDOWS_LAUNCH_EXPERIMENT"@.len());
            reveal_strlit("TMUX_SSH_RIFTIFICATION_CONTROL");
            assert("BUILD_PLAN_AUTO_RELOAD_CONTROL"@[0] != "TMUX_SSH_RIFTIFICATION_CONTROL"@[0]);
            reveal_strlit("TMUX_SSH_RIFTIFICATION_EXPERIMENT");
            assert("BUILD_PLAN_AUTO_RELOAD_CONTROL"@.len() != "TMUX_SSH_RIFTIFICATION_EXPERIMENT"@.len());
            reveal_strlit("CODEBASE_CONTEXT_EXPERIMENT");
            assert("BUILD_PLAN_AUTO_RELOAD_CONTROL"@.len() != "CODEBASE_CONTEXT_EXPERIMENT"@.len());
            reveal_strlit("CODEBASE_CONTEXT_CONTROL");
            assert("BUILD_PLAN_AUTO_RELOAD_CONTROL"@.len() != "CODEBASE_CONTEXT_CONTROL"@.len());
            reveal_strlit("SUGGESTED_CODE_DIFFS_CONTROL");
            assert("BUILD_PLAN_AUTO_RELOAD_CONTROL"@.len() != "SUGGESTED_CODE_DIFFS_CONTROL"@.len());
            reveal_strlit("SUGGESTED_CODE_DIFFS_EXPERIMENT");
            assert("BUILD_PLAN_AUTO_RELOAD_CONTROL"@.len() != "SUGGESTED_CODE_DIFFS_EXPERIMENT"@.len());
        },
        ServerExperiment::BuildPlanAutoReloadBannerToggle => {
            reveal_strlit("BUILD_PLAN_AUTO_RELOAD_BANNER_TOGGLE");
            reveal_strlit("ENV_VARS_EARLY_ACCESS_EXPERIMENT");
            assert("BUILD_PLAN_AUTO_RELOAD_BANNER_TOGGLE"@.len() != "ENV_VARS_EARLY_ACCESS_EXPERIMENT"@.len());
            reveal_strlit("WINDOWS_LAUNCH_EXPERIMENT");
            assert("BUILD_PLAN_AUTO_RELOAD_BANNER_TOGGLE"@.len() != "WINDOWS_LAUNCH_EXPERIMENT"@.len());
            reveal_strlit("TMUX_SSH_RIFTIFICATION_CONTROL");
            assert("BUILD_PLAN_AUTO_RELOAD_BANNER_TOGGLE"@.len() != "TMUX_SSH_RIFTIFICATION_CONTROL"@.len());
            reveal_strlit("TMUX_SSH_RIFTIFICATION_EXPERIMENT");
            assert("BUILD_PLAN_AUTO_RELOAD_BANNER_TOGGLE"@.len() != "TMUX_SSH_RIFTIFICATION_EXPERIMENT"@.len());
            reveal_strlit("CODEBASE_CONTEXT_EXPERIMENT");
            assert("BUILD_PLAN_AUTO_RELOAD_BANNER_TOGGLE"@.len() != "CODEBASE_CONTEXT_EXPERIMENT"@.len());
            reveal_strlit("CODEBASE_CONTEXT_CONTROL");
            assert("BUILD_PLAN_AUTO_RELOAD_BANNER_TOGGLE"@.len() != "CODEBASE_CONTEXT_CONTROL"@.len());
            reveal_strlit("SUGGESTED_CODE_DIFFS_CONTROL");
            assert("BUILD_PLAN_AUTO_RELOAD_BANNER_TOGGLE"@.len() != "SUGGESTED_CODE_DIFFS_CONTROL"@.len());
            reveal_strlit("SUGGESTED_CODE_DIFFS_EXPERIMENT");
            assert("BUILD_PLAN_AUTO_RELOAD_BANNER_TOGGLE"@.len() != "SUGGESTED_CODE_DIFFS_EXPERIMENT"@.len());
            reveal_strlit("BUILD_PLAN_AUTO_RELOAD_CONTROL");
            assert("BUILD_PLAN_AUTO_RELOAD_BANNER_TOGGLE"@.len() != "BUILD_PLAN_AUTO_RELOAD_CONTROL"@.len());
        },
        ServerExperiment::BuildPlanAutoReloadPostPurchaseModal => {
            reveal_strlit("BUILD_PLAN_AUTO_RELOAD_POST_PURCHASE_MODAL");
            reveal_strlit("ENV_VARS_EARLY_ACCESS_EXPERIMENT");
            assert("BUILD_PLAN_AUTO_RELOAD_POST_PURCHASE_MODAL"@.len() != "ENV_VARS_EARLY_ACCESS_EXPERIMENT"@.len());
            reveal_strlit("WINDOWS_LAUNCH_EXPERIMENT");
            assert("BUILD_PLAN_AUTO_RELOAD_POST_PURCHASE_MODAL"@.len() != "WINDOWS_LAUNCH_EXPERIMENT"@.len());
            reveal_strlit("TMUX_SSH_RIFTIFICATION_CONTROL");
            assert("BUILD_PLAN_AUTO_RELOAD_POST_PURCHASE_MODAL"@.len() != "TMUX_SSH_RIFTIFICATION_CONTROL"@.len());
            reveal_strlit("TMUX_SSH_RIFTIFICATION_EXPERIMENT");
            assert("BUILD_PLAN_AUTO_RELOAD_POST_PURCHASE_MODAL"@.len() != "TMUX_SSH_RIFTIFICATION_EXPERIMENT"@.len());
            reveal_strlit("CODEBASE_CONTEXT_EXPERIMENT");
            assert("BUILD_PLAN_AUTO_RELOAD_POST_PURCHASE_MODAL"@.len() != "CODEBASE_CONTEXT_EXPERIMENT"@.len());
            reveal_strlit("CODEBASE_CONTEXT_CONTROL");
            assert("BUILD_PLAN_AUTO_RELOAD_POST_PURCHASE_MODAL"@.len() != "CODEBASE_CONTEXT_CONTROL"@.len());
            reveal_strlit("SUGGESTED_CODE_DIFFS_CONTROL");
            assert("BUILD_PLAN_AUTO_RELOAD_POST_PURCHASE_MODAL"@.len() != "SUGGESTED_CODE_DIFFS_CONTROL"@.len());
            reveal_strlit("SUGGESTED_CODE_DIFFS_EXPERIMENT");
            assert("BUILD_PLAN_AUTO_RELOAD_POST_PURCHASE_MODAL"@.len() != "SUGGESTED_CODE_DIFFS_EXPERIMENT"@.len());
            reveal_strlit("BUILD_PLAN_AUTO_RELOAD_CONTROL");
            assert("BUILD_PLAN_AUTO_RELOAD_POST_PURCHASE_MODAL"@.len() != "BUILD_PLAN_AUTO_RELOAD_CONTROL"@.len());
            reveal_strlit("BUILD_PLAN_AUTO_RELOAD_BANNER_TOGGLE");
            assert("BUILD_PLAN_AUTO_RELOAD_POST_PURCHASE_MODAL"@.len() != "BUILD_PLAN_AUTO_RELOAD_BANNER_TOGGLE"@.len());
        },
        ServerExperiment::PromptSuggestionsViaMaaControl => {
            reveal_strlit("PROMPT_SUGGESTIONS_VIA_MAA_CONTROL");
            reveal_strlit("ENV_VARS_EARLY_ACCESS_EXPERIMENT");
            assert("PROMPT_SUGGESTIONS_VIA_MAA_CONTROL"@.len() != "ENV_VARS_EARLY_ACCESS_EXPERIMENT"@.len());
            reveal_strlit("WINDOWS_LAUNCH_EXPERIMENT");
            assert("PROMPT_SUGGESTIONS_VIA_MAA_CONTROL"@.len() != "WINDOWS_LAUNCH_EXPERIMENT"@.len());
            reveal_strlit("TMUX_SSH_RIFTIFICATION_CONTROL");
            assert("PROMPT_SUGGESTIONS_VIA_MAA_CONTROL"@.len() != "TMUX_SSH_RIFTIFICATION_CONTROL"@.len());
            reveal_strlit("TMUX_SSH_RIFTIFICATION_EXPERIMENT");
            assert("PROMPT_SUGGESTIONS_VIA_MAA_CONTROL"@.len() != "TMUX_SSH_RIFTIFICATION_EXPERIMENT"@.len());
            reveal_strlit("CODEBASE_CONTEXT_EXPERIMENT");
            assert("PROMPT_SUGGESTIONS_VIA_MAA_CONTROL"@.len() != "CODEBASE_CONTEXT_EXPERIMENT"@.len());
            reveal_strlit("CODEBASE_CONTEXT_CONTROL");
            assert("PROMPT_SUGGESTIONS_VIA_MAA_CONTROL"@.len() != "CODEBASE_CONTEXT_CONTROL"@.len());
            reveal_strlit("SUGGESTED_CODE_DIFFS_CONTROL");
            assert("PROMPT_SUGGESTIONS_VIA_MAA_CONTROL"@.len() != "SUGGESTED_CODE_DIFFS_CONTROL"@.len());
            reveal_strlit("SUGGESTED_CODE_DIFFS_EXPERIMENT");
            assert("PROMPT_SUGGESTIONS_VIA_MAA_CONTROL"@.len() != "SUGGESTED_CODE_DIFFS_EXPERIMENT"@.len());
            reveal_strlit("BUILD_PLAN_AUTO_RELOAD_CONTROL");
            assert("PROMPT_SUGGESTIONS_VIA_MAA_CONTROL"@.len() != "BUILD_PLAN_AUTO_RELOAD_CONTROL"@.len());
            reveal_strlit("BUILD_PLAN_AUTO_RELOAD_BANNER_TOGGLE");
            assert("PROMPT_SUGGESTIONS_VIA_MAA_CONTROL"@.len() != "BUILD_PLAN_AUTO_RELOAD_BANNER_TOGGLE"@.len());
            reveal_strlit("BUILD_PLAN_AUTO_RELOAD_POST_PURCHASE_MODAL");
            assert("PROMPT_SUGGESTIONS_VIA_MAA_CONTROL"@.len() != "BUILD_PLAN_AUTO_RELOAD_POST_PURCHASE_MODAL"@.len());
        },
        ServerExperiment::PromptSuggestionsViaMaaExperiment => {
            reveal_strlit("PROMPT_SUGGESTIONS_VIA_MAA_EXPERIMENT");
            reveal_strlit("ENV_VARS_EARLY_ACCESS_EXPERIMENT");
            assert("PROMPT_SUGGESTIONS_VIA_MAA_EXPERIMENT"@.len() != "ENV_VARS_EARLY_ACCESS_EXPERIMENT"@.len());
            reveal_strlit("WINDOWS_LAUNCH_EXPERIMENT");
            assert("PROMPT_SUGGESTIONS_VIA_MAA_EXPERIMENT"@.len() != "WINDOWS_LAUNCH_EXPERIMENT"@.len());
            reveal_strlit("TMUX_SSH_RIFTIFICATION_CONTROL");
            assert("PROMPT_SUGGESTIONS_VIA_MAA_EXPERIMENT"@.len() != "TMUX_SSH_RIFTIFICATION_CONTROL"@.len());
            reveal_strlit("TMUX_SSH_RIFTIFICATION_EXPERIMENT");
            assert("PROMPT_SUGGESTIONS_VIA_MAA_EXPERIMENT"@.len() != "TMUX_SSH_RIFTIFICATION_EXPERIMENT"@.len());
            reveal_strlit("CODEBASE_CONTEXT_EXPERIMENT");
            assert("PROMPT_SUGGESTIONS_VIA_MAA_EXPERIMENT"@.len() != "CODEBASE_CONTEXT_EXPERIMENT"@.len());
            reveal_strlit("CODEBASE_CONTEXT_CONTROL");
            assert("PROMPT_SUGGESTIONS_VIA_MAA_EXPERIMENT"@.len() != "CODEBASE_CONTEXT_CONTROL"@.len());
            reveal_strlit("SUGGESTED_CODE_DIFFS_CONTROL");
            assert("PROMPT_SUGGESTIONS_VIA_MAA_EXPERIMENT"@.len() != "SUGGESTED_CODE_DIFFS_CONTROL"@.len());
            reveal_strlit("SUGGESTED_CODE_DIFFS_EXPERIMENT");
            assert("PROMPT_SUGGESTIONS_VIA_MAA_EXPERIMENT"@.len() != "SUGGESTED_CODE_DIFFS_EXPERIMENT"@.len());
            reveal_strlit("BUILD_PLAN_AUTO_RELOAD_CONTROL");
            assert("PROMPT_SUGGESTIONS_VIA_MAA_EXPERIMENT"@.len() != "BUILD_PLAN_AUTO_RELOAD_CONTROL"@.len());
            reveal_strlit("BUILD_PLAN_AUTO_RELOAD_BANNER_TOGGLE");
            assert("PROMPT_SUGGESTIONS_VIA_MAA_EXPERIMENT"@.len() != "BUILD_PLAN_AUTO_RELOAD_BANNER_TOGGLE"@.len());
            reveal_strlit("BUILD_PLAN_AUTO_RELOAD_POST_PURCHASE_MODAL");
            assert("PROMPT_SUGGESTIONS_VIA_MAA_EXPERIMENT"@.len() != "BUILD_PLAN_AUTO_RELOAD_POST_PURCHASE_MODAL"@.len());
            reveal_strlit("PROMPT_SUGGESTIONS_VIA_MAA_CONTROL");
            assert("PROMPT_SUGGESTIONS_VIA_MAA_EXPERIMENT"@.len() != "PROMPT_SUGGESTIONS_VIA_MAA_CONTROL"@.len());
        },
        ServerExperiment::PromptSuggestionsViaMaaOutOfBandExperiment => {
            reveal_strlit("PROMPT_SUGGESTIONS_VIA_MAA_OOB_EXPERIMENT");
            reveal_strlit("ENV_VARS_EARLY_ACCESS_EXPERIMENT");
            assert("PROMPT_SUGGESTIONS_VIA_MAA_OOB_EXPERIMENT"@.len() != "ENV_VARS_EARLY_ACCESS_EXPERIMENT"@.len());
            reveal_strlit("WINDOWS_LAUNCH_EXPERIMENT");
            assert("PROMPT_SUGGESTIONS_VIA_MAA_OOB_EXPERIMENT"@.len() != "WINDOWS_LAUNCH_EXPERIMENT"@.len());
            reveal_strlit("TMUX_SSH_RIFTIFICATION_CONTROL");
            assert("PROMPT_SUGGESTIONS_VIA_MAA_OOB_EXPERIMENT"@.len() != "TMUX_SSH_RIFTIFICATION_CONTROL"@.len());
            reveal_strlit("TMUX_SSH_RIFTIFICATION_EXPERIMENT");
            assert("PROMPT_SUGGESTIONS_VIA_MAA_OOB_EXPERIMENT"@.len() != "TMUX_SSH_RIFTIFICATION_EXPERIMENT"@.len());
            reveal_strlit("CODEBASE_CONTEXT_EXPERIMENT");
            assert("PROMPT_SUGGESTIONS_VIA_MAA_OOB_EXPERIMENT"@.len() != "CODEBASE_CONTEXT_EXPERIMENT"@.len());
            reveal_strlit("CODEBASE_CONTEXT_CONTROL");
            assert("PROMPT_SUGGESTIONS_VIA_MAA_OOB_EXPERIMENT"@.len() != "CODEBASE_CONTEXT_CONTROL"@.len());
            reveal_strlit("SUGGESTED_CODE_DIFFS_CONTROL");
            assert("PROMPT_SUGGESTIONS_VIA_MAA_OOB_EXPERIMENT"@.len() != "SUGGESTED_CODE_DIFFS_CONTROL"@.len());
            reveal_strlit("SUGGESTED_CODE_DIFFS_EXPERIMENT");
            assert("PROMPT_SUGGESTIONS_VIA_MAA_OOB_EXPERIMENT"@.len() != "SUGGESTED_CODE_DIFFS_EXPERIMENT"@.len());
            reveal_strlit("BUILD_PLAN_AUTO_RELOAD_CONTROL");
            assert("PROMPT_SUGGESTIONS_VIA_MAA_OOB_EXPERIMENT"@.len() != "BUILD_PLAN_AUTO_RELOAD_CONTROL"@.len());
            reveal_strlit("BUILD_PLAN_AUTO_RELOAD_BANNER_TOGGLE");
            assert("PROMPT_SUGGESTIONS_VIA_MAA_OOB_EXPERIMENT"@.len() != "BUILD_PLAN_AUTO_RELOAD_BANNER_TOGGLE"@.len());
            reveal_strlit("BUILD_PLAN_AUTO_RELOAD_POST_PURCHASE_MODAL");
            assert("PROMPT_SUGGESTIONS_VIA_MAA_OOB_EXPERIMENT"@.len() != "BUILD_PLAN_AUTO_RELOAD_POST_PURCHASE_MODAL"@.len());
            reveal_strlit("PROMPT_SUGGESTIONS_VIA_MAA_CONTROL");
            assert("PROMPT_SUGGESTIONS_VIA_MAA_OOB_EXPERIMENT"@.len() != "PROMPT_SUGGESTIONS_VIA_MAA_CONTROL"@.len());
            reveal_strlit("PROMPT_SUGGESTIONS_VIA_MAA_EXPERIMENT");
            assert("PROMPT_SUGGESTIONS_VIA_MAA_OOB_EXPERIMENT"@.len() != "PROMPT_SUGGESTIONS_VIA_MAA_EXPERIMENT"@.len());
            reveal_strlit("FREE_USER_NO_AI_CONTROL");
            assert("PROMPT_SUGGESTIONS_VIA_MAA_OOB_EXPERIMENT"@.len() != "FREE_USER_NO_AI_CONTROL"@.len());
            reveal_strlit("FREE_USER_NO_AI_EXPERIMENT");
            assert("PROMPT_SUGGESTIONS_VIA_MAA_OOB_EXPERIMENT"@.len() != "FREE_USER_NO_AI_EXPERIMENT"@.len());
            reveal_strlit("OZ_MULTI_HARNESS_CONTROL");
            assert("PROMPT_SUGGESTIONS_VIA_MAA_OOB_EXPERIMENT"@.len() != "OZ_MULTI_HARNESS_CONTROL"@.len());
            reveal_strlit("OZ_MULTI_HARNESS_EXPERIMENT");
            assert("PROMPT_SUGGESTIONS_VIA_MAA_OOB_EXPERIMENT"@.len() != "OZ_MULTI_HARNESS_EXPERIMENT"@.len());
        },
        ServerExperiment::FreeUserNoAiControl => {
            reveal_strlit("FREE_USER_NO_AI_CONTROL");
            reveal_strlit("ENV_VARS_EARLY_ACCESS_EXPERIMENT");
            assert("FREE_USER_NO_AI_CONTROL"@.len() != "ENV_VARS_EARLY_ACCESS_EXPERIMENT"@.len());
            reveal_strlit("WINDOWS_LAUNCH_EXPERIMENT");
            assert("FREE_USER_NO_AI_CONTROL"@.len() != "WINDOWS_LAUNCH_EXPERIMENT"@.len());
            reveal_strlit("TMUX_SSH_RIFTIFICATION_CONTROL");
            assert("FREE_USER_NO_AI_CONTROL"@.len() != "TMUX_SSH_RIFTIFICATION_CONTROL"@.len());
            reveal_strlit("TMUX_SSH_RIFTIFICATION_EXPERIMENT");
            assert("FREE_USER_NO_AI_CONTROL"@.len() != "TMUX_SSH_RIFTIFICATION_EXPERIMENT"@.len());
            reveal_strlit("CODEBASE_CONTEXT_EXPERIMENT");
            assert("FREE_USER_NO_AI_CONTROL"@.len() != "CODEBASE_CONTEXT_EXPERIMENT"@.len());
            reveal_strlit("CODEBASE_CONTEXT_CONTROL");
            assert("FREE_USER_NO_AI_CONTROL"@.len() != "CODEBASE_CONTEXT_CONTROL"@.len());
            reveal_strlit("SUGGESTED_CODE_DIFFS_CONTROL");
            assert("FREE_USER_NO_AI_CONTROL"@.len() != "SUGGESTED_CODE_DIFFS_CONTROL"@.len());
            reveal_strlit("SUGGESTED_CODE_DIFFS_EXPERIMENT");
            assert("FREE_USER_NO_AI_CONTROL"@.len() != "SUGGESTED_CODE_DIFFS_EXPERIMENT"@.len());
            reveal_strlit("BUILD_PLAN_AUTO_RELOAD_CONTROL");
            assert("FREE_USER_NO_AI_CONTROL"@.len() != "BUILD_PLAN_AUTO_RELOAD_CONTROL"@.len());
            reveal_strlit("BUILD_PLAN_AUTO_RELOAD_BANNER_TOGGLE");
            assert("FREE_USER_NO_AI_CONTROL"@.len() != "BUILD_PLAN_AUTO_RELOAD_BANNER_TOGGLE"@.len());
            reveal_strlit("BUILD_PLAN_AUTO_RELOAD_POST_PURCHASE_MODAL");
            assert("FREE_USER_NO_AI_CONTROL"@.len() != "BUILD_PLAN_AUTO_RELOAD_POST_PURCHASE_MODAL"@.len());
            reveal_strlit("PROMPT_SUGGESTIONS_VIA_MAA_CONTROL");
            assert("FREE_USER_NO_AI_CONTROL"@.len() != "PROMPT_SUGGESTIONS_VIA_MAA_CONTROL"@.len());
            reveal_strlit("PROMPT_SUGGESTIONS_VIA_MAA_EXPERIMENT");
            assert("FREE_USER_NO_AI_CONTROL"@.len() != "PROMPT_SUGGESTIONS_VIA_MAA_EXPERIMENT"@.len());
        },
        ServerExperiment::FreeUserNoAiExperiment => {
            reveal_strlit("FREE_USER_NO_AI_EXPERIMENT");
            reveal_strlit("ENV_VARS_EARLY_ACCESS_EXPERIMENT");
            assert("FREE_USER_NO_AI_EXPERIMENT"@.len() != "ENV_VARS_EARLY_ACCESS_EXPERIMENT"@.len());
            reveal_strlit("WINDOWS_LAUNCH_EXPERIMENT");
            assert("FREE_USER_NO_AI_EXPERIMENT"@.len() != "WINDOWS_LAUNCH_EXPERIMENT"@.len());
            reveal_strlit("TMUX_SSH_RIFTIFICATION_CONTROL");
            assert("FREE_USER_NO_AI_EXPERIMENT"@.len() != "TMUX_SSH_RIFTIFICATION_CONTROL"@.len());
            reveal_strlit("TMUX_SSH_RIFTIFICATION_EXPERIMENT");
            assert("FREE_USER_NO_AI_EXPERIMENT"@.len() != "TMUX_SSH_RIFTIFICATION_EXPERIMENT"@.len());
            reveal_strlit("CODEBASE_CONTEXT_EXPERIMENT");
            assert("FREE_USER_NO_AI_EXPERIMENT"@.len() != "CODEBASE_CONTEXT_EXPERIMENT"@.len());
            reveal_strlit("CODEBASE_CONTEXT_CONTROL");
            assert("FREE_USER_NO_AI_EXPERIMENT"@.len() != "CODEBASE_CONTEXT_CONTROL"@.len());
            reveal_strlit("SUGGESTED_CODE_DIFFS_CONTROL");
            assert("FREE_USER_NO_AI_EXPERIMENT"@.len() != "SUGGESTED_CODE_DIFFS_CONTROL"@.len());
            reveal_strlit("SUGGESTED_CODE_DIFFS_EXPERIMENT");
            assert("FREE_USER_NO_AI_EXPERIMENT"@.len() != "SUGGESTED_CODE_DIFFS_EXPERIMENT"@.len());
            reveal_strlit("BUILD_PLAN_AUTO_RELOAD_CONTROL");
            assert("FREE_USER_NO_AI_EXPERIMENT"@.len() != "BUILD_PLAN_AUTO_RELOAD_CONTROL"@.len());
            reveal_strlit("BUILD_PLAN_AUTO_RELOAD_BANNER_TOGGLE");
            assert("FREE_USER_NO_AI_EXPERIMENT"@.len() != "BUILD_PLAN_AUTO_RELOAD_BANNER_TOGGLE"@.len());
            reveal_strlit("BUILD_PLAN_AUTO_RELOAD_POST_PURCHASE_MODAL");
            assert("FREE_USER_NO_AI_EXPERIMENT"@.len() != "BUILD_PLAN_AUTO_RELOAD_POST_PURCHASE_MODAL"@.len());
            reveal_strlit("PROMPT_SUGGESTIONS_VIA_MAA_CONTROL");
            assert("FREE_USER_NO_AI_EXPERIMENT"@.len() != "PROMPT_SUGGESTIONS_VIA_MAA_CONTROL"@.len());
            reveal_strlit("PROMPT_SUGGESTIONS_VIA_MAA_EXPERIMENT");
            assert("FREE_USER_NO_AI_EXPERIMENT"@.len() != "PROMPT_SUGGESTIONS_VIA_MAA_EXPERIMENT"@.len());
            reveal_strlit("FREE_USER_NO_AI_CONTROL");
            assert("FREE_USER_NO_AI_EXPERIMENT"@.len() != "FREE_USER_NO_AI_CONTROL"@.len());
        },
        ServerExperiment::OzMultiHarnessControl => {
            reveal_strlit("OZ_MULTI_HARNESS_CONTROL");
            reveal_strlit("ENV_VARS_EARLY_ACCESS_EXPERIMENT");
            assert("OZ_MULTI_HARNESS_CONTROL"@.len() != "ENV_VARS_EARLY_ACCESS_EXPERIMENT"@.len());
            reveal_strlit("WINDOWS_LAUNCH_EXPERIMENT");
            assert("OZ_MULTI_HARNESS_CONTROL"@.len() != "WINDOWS_LAUNCH_EXPERIMENT"@.len());
            reveal_strlit("TMUX_SSH_RIFTIFICATION_CONTROL");
            assert("OZ_MULTI_HARNESS_CONTROL"@.len() != "TMUX_SSH_RIFTIFICATION_CONTROL"@.len());
            reveal_strlit("TMUX_SSH_RIFTIFICATION_EXPERIMENT");
            assert("OZ_MULTI_HARNESS_CONTROL"@.len() != "TMUX_SSH_RIFTIFICATION_EXPERIMENT"@.len());
            reveal_strlit("CODEBASE_CONTEXT_EXPERIMENT");
            assert("OZ_MULTI_HARNESS_CONTROL"@.len() != "CODEBASE_CONTEXT_EXPERIMENT"@.len());
            reveal_strlit("CODEBASE_CONTEXT_CONTROL");
            assert("OZ_MULTI_HARNESS_CONTROL"@[0] != "CODEBASE_CONTEXT_CONTROL"@[0]);
            reveal_strlit("SUGGESTED_CODE_DIFFS_CONTROL");
            assert("OZ_MULTI_HARNESS_CONTROL"@.len() != "SUGGESTED_CODE_DIFFS_CONTROL"@.len());
            reveal_strlit("SUGGESTED_CODE_DIFFS_EXPERIMENT");
            assert("OZ_MULTI_HARNESS_CONTROL"@.len() != "SUGGESTED_CODE_DIFFS_EXPERIMENT"@.len());
            reveal_strlit("BUILD_PLAN_AUTO_RELOAD_CONTROL");
            assert("OZ_MULTI_HARNESS_CONTROL"@.len() != "BUILD_PLAN_AUTO_RELOAD_CONTROL"@.len());
            reveal_strlit("BUILD_PLAN_AUTO_RELOAD_BANNER_TOGGLE");
            assert("OZ_MULTI_HARNESS_CONTROL"@.len() != "BUILD_PLAN_AUTO_RELOAD_BANNER_TOGGLE"@.len());
            reveal_strlit("BUILD_PLAN_AUTO_RELOAD_POST_PURCHASE_MODAL");
            assert("OZ_MULTI_HARNESS_CONTROL"@.len() != "BUILD_PLAN_AUTO_RELOAD_POST_PURCHASE_MODAL"@.len());
            reveal_strlit("PROMPT_SUGGESTIONS_VIA_MAA_CONTROL");
            assert("OZ_MULTI_HARNESS_CONTROL"@.len() != "PROMPT_SUGGESTIONS_VIA_MAA_CONTROL"@.len());
            reveal_strlit("PROMPT_SUGGESTIONS_VIA_MAA_EXPERIMENT");
            assert("OZ_MULTI_HARNESS_CONTROL"@.len() != "PROMPT_SUGGESTIONS_VIA_MAA_EXPERIMENT"@.len());
            reveal_strlit("FREE_USER_NO_AI_CONTROL");
            assert("OZ_MULTI_HARNESS_CONTROL"@.len() != "FREE_USER_NO_AI_CONTROL"@.len());
            reveal_strlit("FREE_USER_NO_AI_EXPERIMENT");
            assert("OZ_MULTI_HARNESS_CONTROL"@.len() != "FREE_USER_NO_AI_EXPERIMENT"@.len());
        },
        ServerExperiment::OzMultiHarnessExperiment => {
            reveal_strlit("OZ_MULTI_HARNESS_EXPERIMENT");
            reveal_strlit("ENV_VARS_EARLY_ACCESS_EXPERIMENT");
            assert("OZ_MULTI_HARNESS_EXPERIMENT"@.len() != "ENV_VARS_EARLY_ACCESS_EXPERIMENT"@.len());
            reveal_strlit("WINDOWS_LAUNCH_EXPERIMENT");
            assert("OZ_MULTI_HARNESS_EXPERIMENT"@.len() != "WINDOWS_LAUNCH_EXPERIMENT"@.len());
            reveal_strlit("TMUX_SSH_RIFTIFICATION_CONTROL");
            assert("OZ_MULTI_HARNESS_EXPERIMENT"@.len() != "TMUX_SSH_RIFTIFICATION_CONTROL"@.len());
            reveal_strlit("TMUX_SSH_RIFTIFICATION_EXPERIMENT");
            assert("OZ_MULTI_HARNESS_EXPERIMENT"@.len() != "TMUX_SSH_RIFTIFICATION_EXPERIMENT"@.len());
            reveal_strlit("CODEBASE_CONTEXT_EXPERIMENT");
            assert("OZ_MULTI_HARNESS_EXPERIMENT"@[0] != "CODEBASE_CONTEXT_EXPERIMENT"@[0]);
            reveal_strlit("CODEBASE_CONTEXT_CONTROL");
            assert("OZ_MULTI_HARNESS_EXPERIMENT"@.len() != "CODEBASE_CONTEXT_CONTROL"@.len());
            reveal_strlit("SUGGESTED_CODE_DIFFS_CONTROL");
            assert("OZ_MULTI_HARNESS_EXPERIMENT"@.len() != "SUGGESTED_CODE_DIFFS_CONTROL"@.len());
            reveal_strlit("SUGGESTED_CODE_DIFFS_EXPERIMENT");
            assert("OZ_MULTI_HARNESS_EXPERIMENT"@.len() != "SUGGESTED_CODE_DIFFS_EXPERIMENT"@.len());
            reveal_strlit("BUILD_PLAN_AUTO_RELOAD_CONTROL");
            assert("OZ_MULTI_HARNESS_EXPERIMENT"@.len() != "BUILD_PLAN_AUTO_RELOAD_CONTROL"@.len());
            reveal_strlit("BUILD_PLAN_AUTO_RELOAD_BANNER_TOGGLE");
            assert("OZ_MULTI_HARNESS_EXPERIMENT"@.len() != "BUILD_PLAN_AUTO_RELOAD_BANNER_TOGGLE"@.len());
            reveal_strlit("BUILD_PLAN_AUTO_RELOAD_POST_PURCHASE_MODAL");
            assert("OZ_MULTI_HARNESS_EXPERIMENT"@.len() != "BUILD_PLAN_AUTO_RELOAD_POST_PURCHASE_MODAL"@.len());
            reveal_strlit("PROMPT_SUGGESTIONS_VIA_MAA_CONTROL");
            assert("OZ_MULTI_HARNESS_EXPERIMENT"@.len() != "PROMPT_SUGGESTIONS_VIA_MAA_CONTROL"@.len());
            reveal_strlit("PROMPT_SUGGESTIONS_VIA_MAA_EXPERIMENT");
            assert("OZ_MULTI_HARNESS_EXPERIMENT"@.len() != "PROMPT_SUGGESTIONS_VIA_MAA_EXPERIMENT"@.len());
            reveal_strlit("FREE_USER_NO_AI_CONTROL");
            assert("OZ_MULTI_HARNESS_EXPERIMENT"@.len() != "FREE_USER_NO_AI_CONTROL"@.len());
            reveal_strlit("FREE_USER_NO_AI_EXPERIMENT");
            assert("OZ_MULTI_HARNESS_EXPERIMENT"@.len() != "FREE_USER_NO_AI_EXPERIMENT"@.len());
            reveal_strlit("OZ_MULTI_HARNESS_CONTROL");
            assert("OZ_MULTI_HARNESS_EXPERIMENT"@.len() != "OZ_MULTI_HARNESS_CONTROL"@.len());
        },
    }
}

/// The experiments named by stored `names`, in order; a name that names no
/// experiment is skipped.
pub open spec fn recognised_experiments(names: Seq<Seq<char>>) -> Seq<ServerExperiment>
    decreases names.len(),
{
    if names.len() == 0 {
        Seq::empty()
    } else {
        let before = recognised_experiments(names.drop_last());
        match experiment_from_name(names.last()) {
            Some(e) => before.push(e),
            None => before,
        }
    }
}

/// The rows stored for `experiments`: the name of each, in order.
pub fn stored_experiment_names(experiments: &Vec<ServerExperiment>) -> (r: Vec<String>)
    ensures
        r@.map_values(|s: String| s@) == experiments@.map_values(|e: ServerExperiment| experiment_name(e)),
{
    let mut r: Vec<String> = Vec::new();
    let mut i: usize = 0;
    let n = experiments.len();
    while i < n
        invariant
            0 <= i <= n,
            n == experiments@.len(),
            r@.map_values(|s: String| s@) == experiments@.take(i as int).map_values(
                |e: ServerExperiment| experiment_name(e),
            ),
        decreases n - i,
    {
        let ghost before = r@;
        r.push(experiments[i].to_string());
        proof {
            assert(r@.map_values(|s: String| s@) =~= before.map_values(|s: String| s@).push(
                experiment_name(experiments@[i as int]),
            ));
            assert(experiments@.take(i + 1).map_values(|e: ServerExperiment| experiment_name(e))
                =~= experiments@.take(i as int).map_values(|e: ServerExperiment| experiment_name(e)).push(
                experiment_name(experiments@[i as int]),
            ));
        }
        i = i + 1;
    }
    proof {
        assert(experiments@.take(n as int) =~= experiments@);
    }
    r
}

/// The experiments read back from stored `names` (see
/// [`recognised_experiments`]).
pub fn restored_experiments(names: Vec<String>) -> (r: Vec<ServerExperiment>)
    ensures
        r@ == recognised_experiments(names@.map_values(|s: String| s@)),
{
    let mut r: Vec<ServerExperiment> = Vec::new();
    let mut i: usize = 0;
    let n = names.len();
    while i < n
        invariant
            0 <= i <= n,
            n == names@.len(),
            r@ == recognised_experiments(names@.take(i as int).map_values(|s: String| s@)),
        decreases n - i,
    {
        let name = names[i].clone();
        proof {
            let v = names@.take(i + 1).map_values(|s: String| s@);
            assert(v.drop_last() =~= names@.take(i as int).map_values(|s: String| s@));
            assert(v.last() == names@[i as int]@);
        }
        match ServerExperiment::from_string(name) {
            Ok(e) => r.push(e),
            Err(_) => {},
        }
        i = i + 1;
    }
    proof {
        assert(names@.take(n as int) =~= names@);
    }
    r
}

/// Reading back the stored names of experiments gives the same experiments,
/// in the same order.
pub proof fn lemma_experiments_restore_after_save(es: Seq<ServerExperiment>)
    ensures
        recognised_experiments(es.map_values(|e: ServerExperiment| experiment_name(e))) == es,
    decreases es.len(),
{
    if es.len() > 0 {
        let names = es.map_values(|e: ServerExperiment| experiment_name(e));
        assert(names.drop_last() =~= es.drop_last().map_values(
            |e: ServerExperiment| experiment_name(e),
        ));
        lemma_experiments_restore_after_save(es.drop_last());
        lemma_experiment_name_round_trip(es.last());
    }
}

} // verus!
