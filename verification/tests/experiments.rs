use rift_app::experiments::{restored_experiments, stored_experiment_names, ServerExperiment};

#[test]
fn experiment_names_round_trip() {
    let all = [
        ServerExperiment::EnvVarsEarlyAccessExperiment,
        ServerExperiment::WindowsLaunchExperiment,
        ServerExperiment::TmuxSshRiftificationControl,
        ServerExperiment::TmuxSshRiftificationExperiment,
        ServerExperiment::CodebaseContextExperiment,
        ServerExperiment::CodebaseContextControl,
        ServerExperiment::SuggestedCodeDiffsControl,
        ServerExperiment::SuggestedCodeDiffsExperiment,
        ServerExperiment::BuildPlanAutoReloadControl,
        ServerExperiment::BuildPlanAutoReloadBannerToggle,
        ServerExperiment::BuildPlanAutoReloadPostPurchaseModal,
        ServerExperiment::PromptSuggestionsViaMaaControl,
        ServerExperiment::PromptSuggestionsViaMaaExperiment,
        ServerExperiment::PromptSuggestionsViaMaaOutOfBandExperiment,
        ServerExperiment::FreeUserNoAiControl,
        ServerExperiment::FreeUserNoAiExperiment,
        ServerExperiment::OzMultiHarnessControl,
        ServerExperiment::OzMultiHarnessExperiment,
    ];
    for e in all {
        assert_eq!(ServerExperiment::from_string(e.to_string()), Ok(e));
    }
}

#[test]
fn out_of_band_experiment_name_is_read_back() {
    let e = ServerExperiment::PromptSuggestionsViaMaaOutOfBandExperiment;
    assert_eq!(e.to_string(), "PROMPT_SUGGESTIONS_VIA_MAA_OOB_EXPERIMENT");
    assert_eq!(ServerExperiment::from_string(e.to_string()), Ok(e));
}

#[test]
fn experiment_names_are_stored_upper_snake_case() {
    assert_eq!(ServerExperiment::WindowsLaunchExperiment.name(), "WINDOWS_LAUNCH_EXPERIMENT");
    assert_eq!(
        ServerExperiment::BuildPlanAutoReloadPostPurchaseModal.to_string(),
        "BUILD_PLAN_AUTO_RELOAD_POST_PURCHASE_MODAL"
    );
}

#[test]
fn unknown_experiment_is_an_error_with_message() {
    let err = ServerExperiment::from_string("NOT_AN_EXPERIMENT".to_string()).unwrap_err();
    assert_eq!(err.name, "NOT_AN_EXPERIMENT");
    assert_eq!(
        err.message(),
        "String doesn't match any server experiment variant NOT_AN_EXPERIMENT"
    );
    assert!(ServerExperiment::from_string("windows_launch_experiment".to_string()).is_err());
    assert!(ServerExperiment::from_string(String::new()).is_err());
}

#[test]
fn saved_experiments_are_restored_in_order() {
    let saved = vec![
        ServerExperiment::WindowsLaunchExperiment,
        ServerExperiment::PromptSuggestionsViaMaaOutOfBandExperiment,
        ServerExperiment::EnvVarsEarlyAccessExperiment,
    ];
    let names = stored_experiment_names(&saved);
    assert_eq!(names.len(), 3);
    assert_eq!(names[0], "WINDOWS_LAUNCH_EXPERIMENT");
    assert_eq!(restored_experiments(names), saved);
}

#[test]
fn unknown_stored_experiment_names_are_skipped() {
    let names = vec!["NOT_AN_EXPERIMENT".to_string(), "ENV_VARS_EARLY_ACCESS_EXPERIMENT".to_string()];
    assert_eq!(restored_experiments(names), vec![ServerExperiment::EnvVarsEarlyAccessExperiment]);
}
