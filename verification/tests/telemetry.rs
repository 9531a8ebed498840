use rift_app::auth::AuthState;
use rift_app::telemetry_collector::{TelemetryCollector, ACTIVE_USAGE_DURATION_SECS};
use rift_app::telemetry_names::{EnablementState, FeatureFlag, TelemetryEventDiscriminants};

#[test]
fn active_usage_is_scheduled_for_release_or_sandbox() {
    assert!(TelemetryCollector::should_schedule_active_usage(true, true, false));
    assert!(TelemetryCollector::should_schedule_active_usage(true, false, true));
    assert!(!TelemetryCollector::should_schedule_active_usage(true, false, false));
    assert!(!TelemetryCollector::should_schedule_active_usage(false, true, true));
}

#[test]
fn active_usage_event_recorded_only_after_recent_activity() {
    let auth = AuthState::new_for_test();
    let now = 1_700_000_000;
    let recent = TelemetryCollector::active_usage_event(&auth, true, now - 30, now)
        .expect("recent activity is recorded");
    assert_eq!(recent.timestamp_secs, now - 30);
    assert_eq!(recent.user_id, Some("local_user".to_string()));
    assert_eq!(recent.anonymous_id, auth.anonymous_id());

    assert_eq!(ACTIVE_USAGE_DURATION_SECS, 60);
    assert!(TelemetryCollector::active_usage_event(&auth, true, now - 60, now).is_none());
    assert!(TelemetryCollector::active_usage_event(&auth, true, now - 59, now).is_some());
    assert!(TelemetryCollector::active_usage_event(&auth, false, now, now).is_none());
}

#[test]
fn active_usage_event_needs_a_representable_time() {
    let auth = AuthState::new_for_test();
    // Far beyond the dates chrono can represent.
    let far = i64::MAX - 1000;
    assert!(TelemetryCollector::active_usage_event(&auth, true, far, 0).is_none());
    assert!(TelemetryCollector::active_usage_event(&auth, true, 0, 0).is_some());
}

#[test]
fn telemetry_event_names_and_descriptions() {
    assert_eq!(TelemetryEventDiscriminants::BlockCompleted.name(), "Block Creation");
    assert_eq!(TelemetryEventDiscriminants::BlockCompleted.description(), "Created Block");
    assert_eq!(TelemetryEventDiscriminants::SessionCreation.name(), "Tab Creation");
    assert_eq!(
        TelemetryEventDiscriminants::LoginLaterButtonClicked.description(),
        "Clicked \"Login later\" button"
    );
    assert_eq!(
        TelemetryEventDiscriminants::QueuedPromptPanelCollapseToggled.description(),
        "User toggled the queued prompts panel collapse state"
    );
}

#[test]
fn telemetry_event_enablement() {
    assert_eq!(TelemetryEventDiscriminants::ObjectLinkCopied.enablement_state(), EnablementState::Always);
    assert_eq!(
        TelemetryEventDiscriminants::FileTreeToggled.enablement_state(),
        EnablementState::Flag(FeatureFlag::FileTree)
    );
    assert_eq!(
        TelemetryEventDiscriminants::RepoOutlineConstructionSuccess.enablement_state(),
        EnablementState::ChannelSpecific { channels: vec![] }
    );
    assert_eq!(
        TelemetryEventDiscriminants::QueuedPromptPanelCollapseToggled.enablement_state(),
        EnablementState::Flag(FeatureFlag::QueueSlashCommand)
    );
}

#[test]
fn only_content_bearing_events_contain_user_content() {
    assert!(TelemetryEventDiscriminants::BootstrappingSlowContents.contains_ugc());
    assert!(TelemetryEventDiscriminants::CreateProjectPromptSubmittedContent.contains_ugc());
    assert!(!TelemetryEventDiscriminants::CreateProjectPromptSubmitted.contains_ugc());
    assert!(!TelemetryEventDiscriminants::BlockCompleted.contains_ugc());
}

#[test]
fn representable_times_end_at_chronos_limits() {
    let auth = AuthState::new_for_test();
    let max = 8_210_266_876_799;
    let min = -8_334_601_228_800;
    assert!(TelemetryCollector::active_usage_event(&auth, true, max, max).is_some());
    assert!(TelemetryCollector::active_usage_event(&auth, true, max + 1, max).is_none());
    assert!(TelemetryCollector::active_usage_event(&auth, true, min, min).is_some());
    assert!(TelemetryCollector::active_usage_event(&auth, true, min - 1, min).is_none());
}

#[test]
fn copying_and_cutting_input_text_have_their_own_names() {
    assert_eq!(TelemetryEventDiscriminants::InputCutSelectedText.name(), "InputBoxCutSelectedText");
    assert_eq!(TelemetryEventDiscriminants::InputCopySelectedText.name(), "InputBoxCopySelectedText");
}

#[test]
fn every_kind_of_event_has_its_own_name() {
    let all = [
        TelemetryEventDiscriminants::AutosuggestionInserted,
        TelemetryEventDiscriminants::BlockCompleted,
        TelemetryEventDiscriminants::BlockCompletedOnDogfoodOnly,
        TelemetryEventDiscriminants::BackgroundBlockStarted,
        TelemetryEventDiscriminants::BaselineCommandLatency,
        TelemetryEventDiscriminants::SessionCreation,
        TelemetryEventDiscriminants::Login,
        TelemetryEventDiscriminants::OpenSuggestionsMenu,
        TelemetryEventDiscriminants::ConfirmSuggestion,
        TelemetryEventDiscriminants::OpenContextMenu,
        TelemetryEventDiscriminants::ContextMenuCopy,
        TelemetryEventDiscriminants::ContextMenuOpenShareModal,
        TelemetryEventDiscriminants::ContextMenuFindWithinBlocks,
        TelemetryEventDiscriminants::ContextMenuCopyPrompt,
        TelemetryEventDiscriminants::ContextMenuToggleGitPromptDirtyIndicator,
        TelemetryEventDiscriminants::ContextMenuInsertSelectedText,
        TelemetryEventDiscriminants::ContextMenuCopySelectedText,
        TelemetryEventDiscriminants::OpenPromptEditor,
        TelemetryEventDiscriminants::PromptEdited,
        TelemetryEventDiscriminants::ReinputCommands,
        TelemetryEventDiscriminants::JumpToPreviousCommand,
        TelemetryEventDiscriminants::BlockSelection,
        TelemetryEventDiscriminants::BootstrappingSlow,
        TelemetryEventDiscriminants::BootstrappingSlowContents,
        TelemetryEventDiscriminants::SessionAbandonedBeforeBootstrap,
        TelemetryEventDiscriminants::BootstrappingSucceeded,
        TelemetryEventDiscriminants::TabSingleResultAutocompletion,
        TelemetryEventDiscriminants::EditorUnhandledModifierKey,
        TelemetryEventDiscriminants::CopyInviteLink,
        TelemetryEventDiscriminants::OpenThemeChooser,
        TelemetryEventDiscriminants::ThemeSelection,
        TelemetryEventDiscriminants::AppIconSelection,
        TelemetryEventDiscriminants::CursorDisplayType,
        TelemetryEventDiscriminants::OpenThemeCreatorModal,
        TelemetryEventDiscriminants::CreateCustomTheme,
        TelemetryEventDiscriminants::DeleteCustomTheme,
        TelemetryEventDiscriminants::SplitPane,
        TelemetryEventDiscriminants::UnableToAutoUpdateToNewVersion,
        TelemetryEventDiscriminants::AutoupdateRelaunchAttempt,
        TelemetryEventDiscriminants::SkipOnboardingSurvey,
        TelemetryEventDiscriminants::ToggleRestoreSession,
        TelemetryEventDiscriminants::DatabaseStartUpError,
        TelemetryEventDiscriminants::DatabaseReadError,
        TelemetryEventDiscriminants::DatabaseWriteError,
        TelemetryEventDiscriminants::AppStartup,
        TelemetryEventDiscriminants::LoggedOutStartup,
        TelemetryEventDiscriminants::DownloadSource,
        TelemetryEventDiscriminants::SSHBootstrapAttempt,
        TelemetryEventDiscriminants::SSHControlMasterError,
        TelemetryEventDiscriminants::KeybindingChanged,
        TelemetryEventDiscriminants::KeybindingResetToDefault,
        TelemetryEventDiscriminants::KeybindingRemoved,
        TelemetryEventDiscriminants::FeaturesPageAction,
        TelemetryEventDiscriminants::OpenWorkflowSearch,
        TelemetryEventDiscriminants::OpenQuakeModeWindow,
        TelemetryEventDiscriminants::OpenWelcomeTips,
        TelemetryEventDiscriminants::CompleteWelcomeTipFeature,
        TelemetryEventDiscriminants::DismissWelcomeTips,
        TelemetryEventDiscriminants::ShowNotificationsDiscoveryBanner,
        TelemetryEventDiscriminants::NotificationsDiscoveryBannerAction,
        TelemetryEventDiscriminants::ShowNotificationsErrorBanner,
        TelemetryEventDiscriminants::NotificationsErrorBannerAction,
        TelemetryEventDiscriminants::NotificationPermissionsRequested,
        TelemetryEventDiscriminants::NotificationsRequestPermissionsOutcome,
        TelemetryEventDiscriminants::NotificationFailedToSend,
        TelemetryEventDiscriminants::NotificationClicked,
        TelemetryEventDiscriminants::ToggleFindOption,
        TelemetryEventDiscriminants::SignUpButtonClicked,
        TelemetryEventDiscriminants::LoginButtonClicked,
        TelemetryEventDiscriminants::LoginLaterButtonClicked,
        TelemetryEventDiscriminants::LoginLaterConfirmationButtonClicked,
        TelemetryEventDiscriminants::OpenNewSessionFromFilePath,
        TelemetryEventDiscriminants::OpenTeamFromURI,
        TelemetryEventDiscriminants::SelectNavigationPaletteItem,
        TelemetryEventDiscriminants::SelectCommandPaletteOption,
        TelemetryEventDiscriminants::PaletteSearchOpened,
        TelemetryEventDiscriminants::PaletteSearchResultAccepted,
        TelemetryEventDiscriminants::PaletteSearchExited,
        TelemetryEventDiscriminants::AuthCommonQuestionClicked,
        TelemetryEventDiscriminants::AuthToggleFAQ,
        TelemetryEventDiscriminants::OpenAuthPrivacySettings,
        TelemetryEventDiscriminants::TabRenamed,
        TelemetryEventDiscriminants::MoveActiveTab,
        TelemetryEventDiscriminants::MoveTab,
        TelemetryEventDiscriminants::DragAndDropTab,
        TelemetryEventDiscriminants::DragAndDropTabGroup,
        TelemetryEventDiscriminants::TabOperations,
        TelemetryEventDiscriminants::EditedInputBeforePrecmd,
        TelemetryEventDiscriminants::TriedToExecuteBeforePrecmd,
        TelemetryEventDiscriminants::ThinStrokesSettingChanged,
        TelemetryEventDiscriminants::BookmarkBlockToggled,
        TelemetryEventDiscriminants::JumpToBookmark,
        TelemetryEventDiscriminants::JumpToBottomofBlockButtonClicked,
        TelemetryEventDiscriminants::ToggleJumpToBottomofBlockButton,
        TelemetryEventDiscriminants::ToggleShowBlockDividers,
        TelemetryEventDiscriminants::OpenLink,
        TelemetryEventDiscriminants::OpenChangelogLink,
        TelemetryEventDiscriminants::ShowInFileExplorer,
        TelemetryEventDiscriminants::CommandXRayTriggered,
        TelemetryEventDiscriminants::OpenLaunchConfigSaveModal,
        TelemetryEventDiscriminants::SaveLaunchConfig,
        TelemetryEventDiscriminants::OpenLaunchConfigFile,
        TelemetryEventDiscriminants::OpenLaunchConfig,
        TelemetryEventDiscriminants::TeamCreated,
        TelemetryEventDiscriminants::TeamJoined,
        TelemetryEventDiscriminants::TeamLeft,
        TelemetryEventDiscriminants::ToggleSettingsSync,
        TelemetryEventDiscriminants::TeamLinkCopied,
        TelemetryEventDiscriminants::RemovedUserFromTeam,
        TelemetryEventDiscriminants::DeletedWorkflow,
        TelemetryEventDiscriminants::DeletedNotebook,
        TelemetryEventDiscriminants::ToggleApprovalsModal,
        TelemetryEventDiscriminants::SendEmailInvites,
        TelemetryEventDiscriminants::CommandCorrection,
        TelemetryEventDiscriminants::SetLineHeight,
        TelemetryEventDiscriminants::ResourceCenterOpened,
        TelemetryEventDiscriminants::ResourceCenterTipsCompleted,
        TelemetryEventDiscriminants::ResourceCenterTipsSkipped,
        TelemetryEventDiscriminants::KeybindingsPageOpened,
        TelemetryEventDiscriminants::CommandSearchOpened,
        TelemetryEventDiscriminants::CommandSearchExited,
        TelemetryEventDiscriminants::CommandSearchResultAccepted,
        TelemetryEventDiscriminants::CommandSearchFilterChanged,
        TelemetryEventDiscriminants::GlobalSearchOpened,
        TelemetryEventDiscriminants::GlobalSearchQueryStarted,
        TelemetryEventDiscriminants::AICommandSearchOpened,
        TelemetryEventDiscriminants::OpenedAltScreenFind,
        TelemetryEventDiscriminants::UserInitiatedClose,
        TelemetryEventDiscriminants::QuitModalShown,
        TelemetryEventDiscriminants::QuitModalCancel,
        TelemetryEventDiscriminants::QuitModalDisabled,
        TelemetryEventDiscriminants::UserInitiatedLogOut,
        TelemetryEventDiscriminants::LogOutModalShown,
        TelemetryEventDiscriminants::LogOutModalCancel,
        TelemetryEventDiscriminants::SetOpacity,
        TelemetryEventDiscriminants::SetBlurRadius,
        TelemetryEventDiscriminants::ToggleDimInactivePanes,
        TelemetryEventDiscriminants::InputModeChanged,
        TelemetryEventDiscriminants::PtySpawned,
        TelemetryEventDiscriminants::InitialWorkingDirectoryConfigurationChanged,
        TelemetryEventDiscriminants::ToggleFocusPaneOnHover,
        TelemetryEventDiscriminants::OpenInputContextMenu,
        TelemetryEventDiscriminants::InputCutSelectedText,
        TelemetryEventDiscriminants::InputCopySelectedText,
        TelemetryEventDiscriminants::InputSelectAll,
        TelemetryEventDiscriminants::InputPaste,
        TelemetryEventDiscriminants::InputCommandSearch,
        TelemetryEventDiscriminants::InputAICommandSearch,
        TelemetryEventDiscriminants::SaveAsWorkflowModal,
        TelemetryEventDiscriminants::ExperimentTriggered,
        TelemetryEventDiscriminants::ToggleSyncAllPanesInAllTabs,
        TelemetryEventDiscriminants::ToggleSyncAllPanesInTab,
        TelemetryEventDiscriminants::ToggleSameLinePrompt,
        TelemetryEventDiscriminants::ToggleNewWindowsAtCustomSize,
        TelemetryEventDiscriminants::SetNewWindowsAtCustomSize,
        TelemetryEventDiscriminants::DisableInputSync,
        TelemetryEventDiscriminants::ToggleTabIndicators,
        TelemetryEventDiscriminants::TogglePreserveActiveTabColor,
        TelemetryEventDiscriminants::ShowSubshellBanner,
        TelemetryEventDiscriminants::DeclineSubshellBootstrap,
        TelemetryEventDiscriminants::TriggerSubshellBootstrap,
        TelemetryEventDiscriminants::AddDenylistedSubshellCommand,
        TelemetryEventDiscriminants::RemoveDenylistedSubshellCommand,
        TelemetryEventDiscriminants::AddAddedSubshellCommand,
        TelemetryEventDiscriminants::RemoveAddedSubshellCommand,
        TelemetryEventDiscriminants::ReceivedSubshellRcFileDcs,
        TelemetryEventDiscriminants::AddDenylistedSshTmuxWrapperHost,
        TelemetryEventDiscriminants::RemoveDenylistedSshTmuxWrapperHost,
        TelemetryEventDiscriminants::ToggleSshTmuxWrapper,
        TelemetryEventDiscriminants::ToggleSshRiftification,
        TelemetryEventDiscriminants::SetSshExtensionInstallMode,
        TelemetryEventDiscriminants::SshInteractiveSessionDetected,
        TelemetryEventDiscriminants::SshTmuxRiftifyBannerDisplayed,
        TelemetryEventDiscriminants::SshTmuxRiftifyBlockAccepted,
        TelemetryEventDiscriminants::SshTmuxRiftifyBlockDismissed,
        TelemetryEventDiscriminants::RiftifyFooterShown,
        TelemetryEventDiscriminants::RiftifyFooterAcceptedRiftify,
        TelemetryEventDiscriminants::SshTmuxRiftificationSuccess,
        TelemetryEventDiscriminants::SshTmuxRiftificationErrorBlock,
        TelemetryEventDiscriminants::SshInstallTmuxBlockDisplayed,
        TelemetryEventDiscriminants::SshInstallTmuxBlockAccepted,
        TelemetryEventDiscriminants::SshInstallTmuxBlockDismissed,
        TelemetryEventDiscriminants::ShowAliasExpansionBanner,
        TelemetryEventDiscriminants::EnableAliasExpansionFromBanner,
        TelemetryEventDiscriminants::DismissAliasExpansionBanner,
        TelemetryEventDiscriminants::ShowVimKeybindingsBanner,
        TelemetryEventDiscriminants::EnableVimKeybindingsFromBanner,
        TelemetryEventDiscriminants::DismissVimKeybindingsBanner,
        TelemetryEventDiscriminants::InitiateReauth,
        TelemetryEventDiscriminants::InitiateAnonymousUserSignup,
        TelemetryEventDiscriminants::AnonymousUserExpirationLockout,
        TelemetryEventDiscriminants::AnonymousUserLinkedFromBrowser,
        TelemetryEventDiscriminants::AnonymousUserAttemptLoginGatedFeature,
        TelemetryEventDiscriminants::AnonymousUserHitCloudObjectLimit,
        TelemetryEventDiscriminants::NeedsReauth,
        TelemetryEventDiscriminants::DriveOpened,
        TelemetryEventDiscriminants::ToggleSecretRedaction,
        TelemetryEventDiscriminants::CustomSecretRegexAdded,
        TelemetryEventDiscriminants::ToggleObfuscateSecret,
        TelemetryEventDiscriminants::CopySecret,
        TelemetryEventDiscriminants::AutoGenerateMetadataSuccess,
        TelemetryEventDiscriminants::AutoGenerateMetadataError,
        TelemetryEventDiscriminants::UndoClose,
        TelemetryEventDiscriminants::PtyThroughput,
        TelemetryEventDiscriminants::DriveSharingOnboardingBlockShown,
        TelemetryEventDiscriminants::CommandFileRun,
        TelemetryEventDiscriminants::PageUpDownInEditorPressed,
        TelemetryEventDiscriminants::JoinedSharedSession,
        TelemetryEventDiscriminants::SharedSessionModalUpgradePressed,
        TelemetryEventDiscriminants::SharerCancelledGrantRole,
        TelemetryEventDiscriminants::SharerGrantModalDontShowAgain,
        TelemetryEventDiscriminants::JumpToSharedSessionParticipant,
        TelemetryEventDiscriminants::UnsupportedShell,
        TelemetryEventDiscriminants::LogOut,
        TelemetryEventDiscriminants::SettingsImportInitiated,
        TelemetryEventDiscriminants::InviteTeammates,
        TelemetryEventDiscriminants::OpenAndRiftifyDockerSubshell,
        TelemetryEventDiscriminants::UpdateBlockFilterQuery,
        TelemetryEventDiscriminants::UpdateBlockFilterQueryContextLines,
        TelemetryEventDiscriminants::ToggleBlockFilterQuery,
        TelemetryEventDiscriminants::ToggleBlockFilterCaseSensitivity,
        TelemetryEventDiscriminants::ToggleBlockFilterRegex,
        TelemetryEventDiscriminants::ToggleBlockFilterInvert,
        TelemetryEventDiscriminants::BlockFilterToolbeltButtonClicked,
        TelemetryEventDiscriminants::ToggleSnackbarInActivePane,
        TelemetryEventDiscriminants::PaneDragInitiated,
        TelemetryEventDiscriminants::PaneDropped,
        TelemetryEventDiscriminants::ObjectLinkCopied,
        TelemetryEventDiscriminants::FileTreeToggled,
        TelemetryEventDiscriminants::FileTreeItemAttachedAsContext,
        TelemetryEventDiscriminants::CodeSelectionAddedAsContext,
        TelemetryEventDiscriminants::FileTreeItemCreated,
        TelemetryEventDiscriminants::PromptSuggestionShown,
        TelemetryEventDiscriminants::SuggestedCodeDiffFailed,
        TelemetryEventDiscriminants::PromptSuggestionAccepted,
        TelemetryEventDiscriminants::StaticPromptSuggestionsBannerShown,
        TelemetryEventDiscriminants::StaticPromptSuggestionAccepted,
        TelemetryEventDiscriminants::ToggleIntelligentAutosuggestionsSetting,
        TelemetryEventDiscriminants::ToggleGlobalAI,
        TelemetryEventDiscriminants::ToggleCodebaseContext,
        TelemetryEventDiscriminants::ToggleAutoIndexing,
        TelemetryEventDiscriminants::ActiveIndexedReposChanged,
        TelemetryEventDiscriminants::ToggleActiveAI,
        TelemetryEventDiscriminants::TogglePromptSuggestionsSetting,
        TelemetryEventDiscriminants::ToggleCodeSuggestionsSetting,
        TelemetryEventDiscriminants::ToggleNaturalLanguageAutosuggestionsSetting,
        TelemetryEventDiscriminants::ToggleSharedBlockTitleGenerationSetting,
        TelemetryEventDiscriminants::ToggleGitOperationsAutogenSetting,
        TelemetryEventDiscriminants::ToggleVoiceInputSetting,
        TelemetryEventDiscriminants::TierLimitHit,
        TelemetryEventDiscriminants::SharedObjectLimitHitBannerViewPlansButtonClicked,
        TelemetryEventDiscriminants::ResourceUsageStats,
        TelemetryEventDiscriminants::MemoryUsageStats,
        TelemetryEventDiscriminants::MemoryUsageHigh,
        TelemetryEventDiscriminants::CompletedSettingsImport,
        TelemetryEventDiscriminants::SettingsImportConfigFocused,
        TelemetryEventDiscriminants::SettingsImportResetButtonClicked,
        TelemetryEventDiscriminants::SettingsImportConfigParsed,
        TelemetryEventDiscriminants::ITermMultipleHotkeys,
        TelemetryEventDiscriminants::UserMenuUpgradeClicked,
        TelemetryEventDiscriminants::ToggleWorkspaceDecorationVisibility,
        TelemetryEventDiscriminants::UpdateAltScreenPaddingMode,
        TelemetryEventDiscriminants::AddTabWithShell,
        TelemetryEventDiscriminants::ToggleLigatureRendering,
        TelemetryEventDiscriminants::RepoOutlineConstructionSuccess,
        TelemetryEventDiscriminants::RepoOutlineConstructionFailed,
        TelemetryEventDiscriminants::KnowledgePaneOpened,
        TelemetryEventDiscriminants::CodePanelsFileOpened,
        TelemetryEventDiscriminants::PreviewPanePromoted,
        TelemetryEventDiscriminants::WSLRegistryError,
        TelemetryEventDiscriminants::AutoupdateUnableToCloseApplications,
        TelemetryEventDiscriminants::AutoupdateFileInUse,
        TelemetryEventDiscriminants::AutoupdateMutexTimeout,
        TelemetryEventDiscriminants::AutoupdateForcekillFailed,
        TelemetryEventDiscriminants::AutoupdateMinidumpCleanupFailed,
        TelemetryEventDiscriminants::ImageReceived,
        TelemetryEventDiscriminants::GrepToolSucceeded,
        TelemetryEventDiscriminants::FileGlobToolSucceeded,
        TelemetryEventDiscriminants::ShellTerminatedPrematurely,
        TelemetryEventDiscriminants::InputUXModeChanged,
        TelemetryEventDiscriminants::ContextChipInteracted,
        TelemetryEventDiscriminants::TabCloseButtonPositionUpdated,
        TelemetryEventDiscriminants::AIExecutionProfileCreated,
        TelemetryEventDiscriminants::AIExecutionProfileDeleted,
        TelemetryEventDiscriminants::AIExecutionProfileSettingUpdated,
        TelemetryEventDiscriminants::AIExecutionProfileAddedToAllowlist,
        TelemetryEventDiscriminants::AIExecutionProfileAddedToDenylist,
        TelemetryEventDiscriminants::AIExecutionProfileRemovedFromAllowlist,
        TelemetryEventDiscriminants::AIExecutionProfileRemovedFromDenylist,
        TelemetryEventDiscriminants::AIExecutionProfileModelSelected,
        TelemetryEventDiscriminants::AIExecutionProfileContextWindowSelected,
        TelemetryEventDiscriminants::OpenSlashMenu,
        TelemetryEventDiscriminants::SlashCommandAccepted,
        TelemetryEventDiscriminants::CreateProjectPromptSubmitted,
        TelemetryEventDiscriminants::CreateProjectPromptSubmittedContent,
        TelemetryEventDiscriminants::CloneRepoPromptSubmitted,
        TelemetryEventDiscriminants::GetStartedSkipToTerminal,
        TelemetryEventDiscriminants::RecentMenuItemSelected,
        TelemetryEventDiscriminants::OpenRepoFolderSubmitted,
        TelemetryEventDiscriminants::OutOfCreditsBannerClosed,
        TelemetryEventDiscriminants::AutoReloadModalClosed,
        TelemetryEventDiscriminants::AutoReloadToggledFromBillingSettings,
        TelemetryEventDiscriminants::DetectedIsolationPlatform,
        TelemetryEventDiscriminants::LinearIssueLinkOpened,
        TelemetryEventDiscriminants::FreeTierLimitHitInterstitialDisplayed,
        TelemetryEventDiscriminants::FreeTierLimitHitInterstitialUpgradeButtonClicked,
        TelemetryEventDiscriminants::FreeTierLimitHitInterstitialClosed,
        TelemetryEventDiscriminants::QueuedPromptPanelCollapseToggled,
    ];
    let mut names = std::collections::HashSet::new();
    for kind in all {
        assert!(names.insert(kind.name()), "duplicate name {}", kind.name());
    }
    assert_eq!(names.len(), 308);
}
