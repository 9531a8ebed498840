//! The kinds of telemetry event, with the name each is reported under and
//! the description published for it.

use vstd::prelude::*;

verus! {

/// The kind of a telemetry event, without the data it carries.
#[derive(Clone, Copy, Debug, PartialEq, Eq, Hash, Structural)]
pub enum TelemetryEventDiscriminants {
    AutosuggestionInserted,
    BlockCompleted,
    BlockCompletedOnDogfoodOnly,
    BackgroundBlockStarted,
    BaselineCommandLatency,
    SessionCreation,
    Login,
    OpenSuggestionsMenu,
    ConfirmSuggestion,
    OpenContextMenu,
    ContextMenuCopy,
    ContextMenuOpenShareModal,
    ContextMenuFindWithinBlocks,
    ContextMenuCopyPrompt,
    ContextMenuToggleGitPromptDirtyIndicator,
    ContextMenuInsertSelectedText,
    ContextMenuCopySelectedText,
    OpenPromptEditor,
    PromptEdited,
    ReinputCommands,
    JumpToPreviousCommand,
    BlockSelection,
    BootstrappingSlow,
    BootstrappingSlowContents,
    SessionAbandonedBeforeBootstrap,
    BootstrappingSucceeded,
    TabSingleResultAutocompletion,
    EditorUnhandledModifierKey,
    CopyInviteLink,
    OpenThemeChooser,
    ThemeSelection,
    AppIconSelection,
    CursorDisplayType,
    OpenThemeCreatorModal,
    CreateCustomTheme,
    DeleteCustomTheme,
    SplitPane,
    UnableToAutoUpdateToNewVersion,
    AutoupdateRelaunchAttempt,
    SkipOnboardingSurvey,
    ToggleRestoreSession,
    DatabaseStartUpError,
    DatabaseReadError,
    DatabaseWriteError,
    AppStartup,
    LoggedOutStartup,
    DownloadSource,
    SSHBootstrapAttempt,
    SSHControlMasterError,
    KeybindingChanged,
    KeybindingResetToDefault,
    KeybindingRemoved,
    FeaturesPageAction,
    OpenWorkflowSearch,
    OpenQuakeModeWindow,
    OpenWelcomeTips,
    CompleteWelcomeTipFeature,
    DismissWelcomeTips,
    ShowNotificationsDiscoveryBanner,
    NotificationsDiscoveryBannerAction,
    ShowNotificationsErrorBanner,
    NotificationsErrorBannerAction,
    NotificationPermissionsRequested,
    NotificationsRequestPermissionsOutcome,
    NotificationFailedToSend,
    NotificationClicked,
    ToggleFindOption,
    SignUpButtonClicked,
    LoginButtonClicked,
    LoginLaterButtonClicked,
    LoginLaterConfirmationButtonClicked,
    OpenNewSessionFromFilePath,
    OpenTeamFromURI,
    SelectNavigationPaletteItem,
    SelectCommandPaletteOption,
    PaletteSearchOpened,
    PaletteSearchResultAccepted,
    PaletteSearchExited,
    AuthCommonQuestionClicked,
    AuthToggleFAQ,
    OpenAuthPrivacySettings,
    TabRenamed,
    MoveActiveTab,
    MoveTab,
    DragAndDropTab,
    DragAndDropTabGroup,
    TabOperations,
    EditedInputBeforePrecmd,
    TriedToExecuteBeforePrecmd,
    ThinStrokesSettingChanged,
    BookmarkBlockToggled,
    JumpToBookmark,
    JumpToBottomofBlockButtonClicked,
    ToggleJumpToBottomofBlockButton,
    ToggleShowBlockDividers,
    OpenLink,
    OpenChangelogLink,
    ShowInFileExplorer,
    CommandXRayTriggered,
    OpenLaunchConfigSaveModal,
    SaveLaunchConfig,
    OpenLaunchConfigFile,
    OpenLaunchConfig,
    TeamCreated,
    TeamJoined,
    TeamLeft,
    ToggleSettingsSync,
    TeamLinkCopied,
    RemovedUserFromTeam,
    DeletedWorkflow,
    DeletedNotebook,
    ToggleApprovalsModal,
    SendEmailInvites,
    CommandCorrection,
    SetLineHeight,
    ResourceCenterOpened,
    ResourceCenterTipsCompleted,
    ResourceCenterTipsSkipped,
    KeybindingsPageOpened,
    CommandSearchOpened,
    CommandSearchExited,
    CommandSearchResultAccepted,
    CommandSearchFilterChanged,
    GlobalSearchOpened,
    GlobalSearchQueryStarted,
    AICommandSearchOpened,
    OpenedAltScreenFind,
    UserInitiatedClose,
    QuitModalShown,
    QuitModalCancel,
    QuitModalDisabled,
    UserInitiatedLogOut,
    LogOutModalShown,
    LogOutModalCancel,
    SetOpacity,
    SetBlurRadius,
    ToggleDimInactivePanes,
    InputModeChanged,
    PtySpawned,
    InitialWorkingDirectoryConfigurationChanged,
    ToggleFocusPaneOnHover,
    OpenInputContextMenu,
    InputCutSelectedText,
    InputCopySelectedText,
    InputSelectAll,
    InputPaste,
    InputCommandSearch,
    InputAICommandSearch,
    SaveAsWorkflowModal,
    ExperimentTriggered,
    ToggleSyncAllPanesInAllTabs,
    ToggleSyncAllPanesInTab,
    ToggleSameLinePrompt,
    ToggleNewWindowsAtCustomSize,
    SetNewWindowsAtCustomSize,
    DisableInputSync,
    ToggleTabIndicators,
    TogglePreserveActiveTabColor,
    ShowSubshellBanner,
    DeclineSubshellBootstrap,
    TriggerSubshellBootstrap,
    AddDenylistedSubshellCommand,
    RemoveDenylistedSubshellCommand,
    AddAddedSubshellCommand,
    RemoveAddedSubshellCommand,
    ReceivedSubshellRcFileDcs,
    AddDenylistedSshTmuxWrapperHost,
    RemoveDenylistedSshTmuxWrapperHost,
    ToggleSshTmuxWrapper,
    ToggleSshRiftification,
    SetSshExtensionInstallMode,
    SshInteractiveSessionDetected,
    SshTmuxRiftifyBannerDisplayed,
    SshTmuxRiftifyBlockAccepted,
    SshTmuxRiftifyBlockDismissed,
    RiftifyFooterShown,
    RiftifyFooterAcceptedRiftify,
    SshTmuxRiftificationSuccess,
    SshTmuxRiftificationErrorBlock,
    SshInstallTmuxBlockDisplayed,
    SshInstallTmuxBlockAccepted,
    SshInstallTmuxBlockDismissed,
    ShowAliasExpansionBanner,
    EnableAliasExpansionFromBanner,
    DismissAliasExpansionBanner,
    ShowVimKeybindingsBanner,
    EnableVimKeybindingsFromBanner,
    DismissVimKeybindingsBanner,
    InitiateReauth,
    InitiateAnonymousUserSignup,
    AnonymousUserExpirationLockout,
    AnonymousUserLinkedFromBrowser,
    AnonymousUserAttemptLoginGatedFeature,
    AnonymousUserHitCloudObjectLimit,
    NeedsReauth,
    DriveOpened,
    ToggleSecretRedaction,
    CustomSecretRegexAdded,
    ToggleObfuscateSecret,
    CopySecret,
    AutoGenerateMetadataSuccess,
    AutoGenerateMetadataError,
    UndoClose,
    PtyThroughput,
    DriveSharingOnboardingBlockShown,
    CommandFileRun,
    PageUpDownInEditorPressed,
    JoinedSharedSession,
    SharedSessionModalUpgradePressed,
    SharerCancelledGrantRole,
    SharerGrantModalDontShowAgain,
    JumpToSharedSessionParticipant,
    UnsupportedShell,
    LogOut,
    SettingsImportInitiated,
    InviteTeammates,
    OpenAndRiftifyDockerSubshell,
    UpdateBlockFilterQuery,
    UpdateBlockFilterQueryContextLines,
    ToggleBlockFilterQuery,
    ToggleBlockFilterCaseSensitivity,
    ToggleBlockFilterRegex,
    ToggleBlockFilterInvert,
    BlockFilterToolbeltButtonClicked,
    ToggleSnackbarInActivePane,
    PaneDragInitiated,
    PaneDropped,
    ObjectLinkCopied,
    FileTreeToggled,
    FileTreeItemAttachedAsContext,
    CodeSelectionAddedAsContext,
    FileTreeItemCreated,
    PromptSuggestionShown,
    SuggestedCodeDiffFailed,
    PromptSuggestionAccepted,
    StaticPromptSuggestionsBannerShown,
    StaticPromptSuggestionAccepted,
    ToggleIntelligentAutosuggestionsSetting,
    ToggleGlobalAI,
    ToggleCodebaseContext,
    ToggleAutoIndexing,
    ActiveIndexedReposChanged,
    ToggleActiveAI,
    TogglePromptSuggestionsSetting,
    ToggleCodeSuggestionsSetting,
    ToggleNaturalLanguageAutosuggestionsSetting,
    ToggleSharedBlockTitleGenerationSetting,
    ToggleGitOperationsAutogenSetting,
    ToggleVoiceInputSetting,
    TierLimitHit,
    SharedObjectLimitHitBannerViewPlansButtonClicked,
    ResourceUsageStats,
    MemoryUsageStats,
    MemoryUsageHigh,
    CompletedSettingsImport,
    SettingsImportConfigFocused,
    SettingsImportResetButtonClicked,
    SettingsImportConfigParsed,
    ITermMultipleHotkeys,
    UserMenuUpgradeClicked,
    ToggleWorkspaceDecorationVisibility,
    UpdateAltScreenPaddingMode,
    AddTabWithShell,
    ToggleLigatureRendering,
    RepoOutlineConstructionSuccess,
    RepoOutlineConstructionFailed,
    KnowledgePaneOpened,
    CodePanelsFileOpened,
    PreviewPanePromoted,
    WSLRegistryError,
    AutoupdateUnableToCloseApplications,
    AutoupdateFileInUse,
    AutoupdateMutexTimeout,
    AutoupdateForcekillFailed,
    AutoupdateMinidumpCleanupFailed,
    ImageReceived,
    GrepToolSucceeded,
    FileGlobToolSucceeded,
    ShellTerminatedPrematurely,
    InputUXModeChanged,
    ContextChipInteracted,
    TabCloseButtonPositionUpdated,
    AIExecutionProfileCreated,
    AIExecutionProfileDeleted,
    AIExecutionProfileSettingUpdated,
    AIExecutionProfileAddedToAllowlist,
    AIExecutionProfileAddedToDenylist,
    AIExecutionProfileRemovedFromAllowlist,
    AIExecutionProfileRemovedFromDenylist,
    AIExecutionProfileModelSelected,
    AIExecutionProfileContextWindowSelected,
    OpenSlashMenu,
    SlashCommandAccepted,
    CreateProjectPromptSubmitted,
    CreateProjectPromptSubmittedContent,
    CloneRepoPromptSubmitted,
    GetStartedSkipToTerminal,
    RecentMenuItemSelected,
    OpenRepoFolderSubmitted,
    OutOfCreditsBannerClosed,
    AutoReloadModalClosed,
    AutoReloadToggledFromBillingSettings,
    DetectedIsolationPlatform,
    LinearIssueLinkOpened,
    FreeTierLimitHitInterstitialDisplayed,
    FreeTierLimitHitInterstitialUpgradeButtonClicked,
    FreeTierLimitHitInterstitialClosed,
    QueuedPromptPanelCollapseToggled,
}

/// The name an event of kind `e` is reported under.
pub open spec fn telemetry_event_name(e: TelemetryEventDiscriminants) -> Seq<char> {
    match e {
        TelemetryEventDiscriminants::AutosuggestionInserted => "Autosuggestion Inserted"@,
        TelemetryEventDiscriminants::BlockCompleted => "Block Creation"@,
        TelemetryEventDiscriminants::BlockCompletedOnDogfoodOnly => "Block Completed (dogfood only)"@,
        TelemetryEventDiscriminants::BackgroundBlockStarted => "Background Block Started"@,
        TelemetryEventDiscriminants::BaselineCommandLatency => "BaselineCommand Latency"@,
        TelemetryEventDiscriminants::SessionCreation => "Tab Creation"@,
        TelemetryEventDiscriminants::Login => "Logged in to native app"@,
        TelemetryEventDiscriminants::OpenSuggestionsMenu => "Open Suggestions Menu"@,
        TelemetryEventDiscriminants::ConfirmSuggestion => "Confirm Suggestion"@,
        TelemetryEventDiscriminants::OpenContextMenu => "Open Context Menu"@,
        TelemetryEventDiscriminants::ContextMenuCopy => "Context Menu Copy"@,
        TelemetryEventDiscriminants::ContextMenuOpenShareModal => "Context Menu: Initiate Block Sharing"@,
        TelemetryEventDiscriminants::ContextMenuFindWithinBlocks => "Context Menu: Find Within Blocks"@,
        TelemetryEventDiscriminants::ContextMenuCopyPrompt => "Context Menu Copy Prompt"@,
        TelemetryEventDiscriminants::ContextMenuToggleGitPromptDirtyIndicator => "Context Menu Toggle Git Prompt Dirty Indicator"@,
        TelemetryEventDiscriminants::ContextMenuInsertSelectedText => "Context Menu Insert Selected Text into Input"@,
        TelemetryEventDiscriminants::ContextMenuCopySelectedText => "Context Menu Copy Selected Text"@,
        TelemetryEventDiscriminants::OpenPromptEditor => "Prompt Editor Opened"@,
        TelemetryEventDiscriminants::PromptEdited => "Prompt Edited"@,
        TelemetryEventDiscriminants::ReinputCommands => "Context Menu: Reinput Commands"@,
        TelemetryEventDiscriminants::JumpToPreviousCommand => "Jumped to Previous Command"@,
        TelemetryEventDiscriminants::BlockSelection => "Block Selection"@,
        TelemetryEventDiscriminants::BootstrappingSlow => "Bootstrapping Slow"@,
        TelemetryEventDiscriminants::BootstrappingSlowContents => "Bootstrap Slow Contents"@,
        TelemetryEventDiscriminants::SessionAbandonedBeforeBootstrap => "Session Abandoned Before Bootstrap"@,
        TelemetryEventDiscriminants::BootstrappingSucceeded => "Bootstrapping Succeeded"@,
        TelemetryEventDiscriminants::TabSingleResultAutocompletion => "Tab Single Result Autocompletion"@,
        TelemetryEventDiscriminants::EditorUnhandledModifierKey => "Unhandled Editor Modifier Key"@,
        TelemetryEventDiscriminants::CopyInviteLink => "Copy Invite Link"@,
        TelemetryEventDiscriminants::OpenThemeChooser => "Open Theme Chooser"@,
        TelemetryEventDiscriminants::ThemeSelection => "Select Theme"@,
        TelemetryEventDiscriminants::AppIconSelection => "Select App Icon"@,
        TelemetryEventDiscriminants::CursorDisplayType => "Select Cursor Type"@,
        TelemetryEventDiscriminants::OpenThemeCreatorModal => "Open Theme Creator Modal"@,
        TelemetryEventDiscriminants::CreateCustomTheme => "Create Custom Theme"@,
        TelemetryEventDiscriminants::DeleteCustomTheme => "Delete Custom Theme"@,
        TelemetryEventDiscriminants::SplitPane => "Split Pane"@,
        TelemetryEventDiscriminants::UnableToAutoUpdateToNewVersion => "Unable to Update To New Version"@,
        TelemetryEventDiscriminants::AutoupdateRelaunchAttempt => "Attempting to Relaunch for Update"@,
        TelemetryEventDiscriminants::SkipOnboardingSurvey => "Skip Onboarding Survey"@,
        TelemetryEventDiscriminants::ToggleRestoreSession => "Toggle Restore Session"@,
        TelemetryEventDiscriminants::DatabaseStartUpError => "Database Startup Error"@,
        TelemetryEventDiscriminants::DatabaseReadError => "Database Read Error"@,
        TelemetryEventDiscriminants::DatabaseWriteError => "Database Write Error"@,
        TelemetryEventDiscriminants::AppStartup => "App Startup"@,
        TelemetryEventDiscriminants::LoggedOutStartup => "Logged-out App Startup"@,
        TelemetryEventDiscriminants::DownloadSource => "App Download Source"@,
        TelemetryEventDiscriminants::SSHBootstrapAttempt => "SSH Bootstrap Attempt"@,
        TelemetryEventDiscriminants::SSHControlMasterError => "SSH ControlMaster Error"@,
        TelemetryEventDiscriminants::KeybindingChanged => "Keybinding Changed"@,
        TelemetryEventDiscriminants::KeybindingResetToDefault => "Keybinding Reset to Default"@,
        TelemetryEventDiscriminants::KeybindingRemoved => "Keybinding Removed"@,
        TelemetryEventDiscriminants::FeaturesPageAction => "Features Page Action"@,
        TelemetryEventDiscriminants::OpenWorkflowSearch => "Open Workflows Search"@,
        TelemetryEventDiscriminants::OpenQuakeModeWindow => "Open Quake Mode Window"@,
        TelemetryEventDiscriminants::OpenWelcomeTips => "Open Welcome Tips"@,
        TelemetryEventDiscriminants::CompleteWelcomeTipFeature => "Complete Welcome Tip"@,
        TelemetryEventDiscriminants::DismissWelcomeTips => "Dismiss Welcome Tips"@,
        TelemetryEventDiscriminants::ShowNotificationsDiscoveryBanner => "ShowNotificationsDiscoveryBanner"@,
        TelemetryEventDiscriminants::NotificationsDiscoveryBannerAction => "Notifications Discovery Banner Action"@,
        TelemetryEventDiscriminants::ShowNotificationsErrorBanner => "ShowNotificationsErrorBanner"@,
        TelemetryEventDiscriminants::NotificationsErrorBannerAction => "Notifications Error Banner Action"@,
        TelemetryEventDiscriminants::NotificationPermissionsRequested => "Notification Permissions Requested"@,
        TelemetryEventDiscriminants::NotificationsRequestPermissionsOutcome => "Notification Request Permissions Outcome"@,
        TelemetryEventDiscriminants::NotificationFailedToSend => "Notification Failed to Send"@,
        TelemetryEventDiscriminants::NotificationClicked => "Notification Clicked"@,
        TelemetryEventDiscriminants::ToggleFindOption => "Find Option Toggled"@,
        TelemetryEventDiscriminants::SignUpButtonClicked => "Sign Up Button Clicked in App"@,
        TelemetryEventDiscriminants::LoginButtonClicked => "Log In Button Clicked in App"@,
        TelemetryEventDiscriminants::LoginLaterButtonClicked => "Login Later Button Clicked"@,
        TelemetryEventDiscriminants::LoginLaterConfirmationButtonClicked => "Login Later Confirmation Button Clicked"@,
        TelemetryEventDiscriminants::OpenNewSessionFromFilePath => "New Session From Directory"@,
        TelemetryEventDiscriminants::OpenTeamFromURI => "Open Team from URI"@,
        TelemetryEventDiscriminants::SelectNavigationPaletteItem => "Select Navigation Palette Item"@,
        TelemetryEventDiscriminants::SelectCommandPaletteOption => "Select Command Palette Option"@,
        TelemetryEventDiscriminants::PaletteSearchOpened => "Open Palette"@,
        TelemetryEventDiscriminants::PaletteSearchResultAccepted => "Command Palette Search Accepted"@,
        TelemetryEventDiscriminants::PaletteSearchExited => "Command Palette Search Exited"@,
        TelemetryEventDiscriminants::AuthCommonQuestionClicked => "Auth Common Question Clicked in App"@,
        TelemetryEventDiscriminants::AuthToggleFAQ => "Auth: Toggle Common Questions"@,
        TelemetryEventDiscriminants::OpenAuthPrivacySettings => "Auth: Open Privacy Settings Overlay"@,
        TelemetryEventDiscriminants::TabRenamed => "Tab Renamed"@,
        TelemetryEventDiscriminants::MoveActiveTab => "Move Active Tab"@,
        TelemetryEventDiscriminants::MoveTab => "Move Tab"@,
        TelemetryEventDiscriminants::DragAndDropTab => "Drag and Drop Tab"@,
        TelemetryEventDiscriminants::DragAndDropTabGroup => "Drag and Drop Tab Group"@,
        TelemetryEventDiscriminants::TabOperations => "Tab Operations"@,
        TelemetryEventDiscriminants::EditedInputBeforePrecmd => "Edited Input Before Precmd"@,
        TelemetryEventDiscriminants::TriedToExecuteBeforePrecmd => "Tried to Execute Before Precmd"@,
        TelemetryEventDiscriminants::ThinStrokesSettingChanged => "Thin Strokes Setting Changed"@,
        TelemetryEventDiscriminants::BookmarkBlockToggled => "Toggled Bookmark Block"@,
        TelemetryEventDiscriminants::JumpToBookmark => "Jumped to Bookmark Block"@,
        TelemetryEventDiscriminants::JumpToBottomofBlockButtonClicked => "Jumped to Bottom of Block Button Clicked"@,
        TelemetryEventDiscriminants::ToggleJumpToBottomofBlockButton => "Toggle Jump to Bottom of Block Button"@,
        TelemetryEventDiscriminants::ToggleShowBlockDividers => "Toggle Show Block Dividers"@,
        TelemetryEventDiscriminants::OpenLink => "Opened Link"@,
        TelemetryEventDiscriminants::OpenChangelogLink => "Opened Changelog Link"@,
        TelemetryEventDiscriminants::ShowInFileExplorer => "Showed File in File Explorer"@,
        TelemetryEventDiscriminants::CommandXRayTriggered => "Triggered Command XRay"@,
        TelemetryEventDiscriminants::OpenLaunchConfigSaveModal => "Open Save Config Modal"@,
        TelemetryEventDiscriminants::SaveLaunchConfig => "Save Launch Config"@,
        TelemetryEventDiscriminants::OpenLaunchConfigFile => "Open Launch Config File"@,
        TelemetryEventDiscriminants::OpenLaunchConfig => "Open Launch Config"@,
        TelemetryEventDiscriminants::TeamCreated => "Team Created"@,
        TelemetryEventDiscriminants::TeamJoined => "Team Joined"@,
        TelemetryEventDiscriminants::TeamLeft => "Team Left"@,
        TelemetryEventDiscriminants::ToggleSettingsSync => "Toggle Settings Sync"@,
        TelemetryEventDiscriminants::TeamLinkCopied => "Team Link Copied"@,
        TelemetryEventDiscriminants::RemovedUserFromTeam => "Removed user from team"@,
        TelemetryEventDiscriminants::DeletedWorkflow => "Deleted Workflow"@,
        TelemetryEventDiscriminants::DeletedNotebook => "Deleted Notebook"@,
        TelemetryEventDiscriminants::ToggleApprovalsModal => "Toggle Approvals Modal"@,
        TelemetryEventDiscriminants::SendEmailInvites => "Sent email invites"@,
        TelemetryEventDiscriminants::CommandCorrection => "Command Correction Event"@,
        TelemetryEventDiscriminants::SetLineHeight => "Set Line Height"@,
        TelemetryEventDiscriminants::ResourceCenterOpened => "Resource Center Opened"@,
        TelemetryEventDiscriminants::ResourceCenterTipsCompleted => "Resource Center Tips Completed"@,
        TelemetryEventDiscriminants::ResourceCenterTipsSkipped => "Resource Center Tips Skipped"@,
        TelemetryEventDiscriminants::KeybindingsPageOpened => "Resource Center Keybindings Page Opened"@,
        TelemetryEventDiscriminants::CommandSearchOpened => "Command Search Opened"@,
        TelemetryEventDiscriminants::CommandSearchExited => "Command Search Exited"@,
        TelemetryEventDiscriminants::CommandSearchResultAccepted => "Command Search Result Accepted"@,
        TelemetryEventDiscriminants::CommandSearchFilterChanged => "Command Search Filter Changed"@,
        TelemetryEventDiscriminants::GlobalSearchOpened => "Global Search Opened"@,
        TelemetryEventDiscriminants::GlobalSearchQueryStarted => "Global Search Query Started"@,
        TelemetryEventDiscriminants::AICommandSearchOpened => "AI Command Search opened"@,
        TelemetryEventDiscriminants::OpenedAltScreenFind => "Opened alt screen find bar"@,
        TelemetryEventDiscriminants::UserInitiatedClose => "User Initiated Closing Something"@,
        TelemetryEventDiscriminants::QuitModalShown => "Quit Modal Shown"@,
        TelemetryEventDiscriminants::QuitModalCancel => "Quit Modal Cancel Pressed"@,
        TelemetryEventDiscriminants::QuitModalDisabled => "Quit Modal Disabled"@,
        TelemetryEventDiscriminants::UserInitiatedLogOut => "User Initiated Log Out"@,
        TelemetryEventDiscriminants::LogOutModalShown => "Log Out Modal Shown"@,
        TelemetryEventDiscriminants::LogOutModalCancel => "Log Out Modal Cancel Pressed"@,
        TelemetryEventDiscriminants::SetOpacity => "Set Window Opacity"@,
        TelemetryEventDiscriminants::SetBlurRadius => "Set Window Blur Radius"@,
        TelemetryEventDiscriminants::ToggleDimInactivePanes => "Toggle Dim Inactive Panes"@,
        TelemetryEventDiscriminants::InputModeChanged => "Input Mode Changed"@,
        TelemetryEventDiscriminants::PtySpawned => "Pty Spawned"@,
        TelemetryEventDiscriminants::InitialWorkingDirectoryConfigurationChanged => "InitialWorkingDirectoryConfigurationChanged"@,
        TelemetryEventDiscriminants::ToggleFocusPaneOnHover => "Toggle Focus Pane On Hover"@,
        TelemetryEventDiscriminants::OpenInputContextMenu => "OpenInputBoxContextMenu"@,
        TelemetryEventDiscriminants::InputCutSelectedText => "InputBoxCutSelectedText"@,
        TelemetryEventDiscriminants::InputCopySelectedText => "InputBoxCopySelectedText"@,
        TelemetryEventDiscriminants::InputSelectAll => "InputBoxSelectAll"@,
        TelemetryEventDiscriminants::InputPaste => "InputBoxPaste"@,
        TelemetryEventDiscriminants::InputCommandSearch => "InputBoxCommandSearch"@,
        TelemetryEventDiscriminants::InputAICommandSearch => "InputBoxAICommandSearch"@,
        TelemetryEventDiscriminants::SaveAsWorkflowModal => "Opened Save As Workflow Modal"@,
        TelemetryEventDiscriminants::ExperimentTriggered => "experiments.client.enroll_client"@,
        TelemetryEventDiscriminants::ToggleSyncAllPanesInAllTabs => "Toggle Sync Inputs Across All Panes in All Tabs"@,
        TelemetryEventDiscriminants::ToggleSyncAllPanesInTab => "Toggle Sync Inputs Across All Panes in Current Tab"@,
        TelemetryEventDiscriminants::ToggleSameLinePrompt => "Toggle Same Line Prompt"@,
        TelemetryEventDiscriminants::ToggleNewWindowsAtCustomSize => "Toggle New Windows at Custom Size"@,
        TelemetryEventDiscriminants::SetNewWindowsAtCustomSize => "Set New Windows at Custom Size"@,
        TelemetryEventDiscriminants::DisableInputSync => "Disable Input Sync Inputs"@,
        TelemetryEventDiscriminants::ToggleTabIndicators => "Toggle Tab Indicators"@,
        TelemetryEventDiscriminants::TogglePreserveActiveTabColor => "Toggle Preserve Active Tab Color"@,
        TelemetryEventDiscriminants::ShowSubshellBanner => "Show Subshell Banner"@,
        TelemetryEventDiscriminants::DeclineSubshellBootstrap => "Decline Subshell Bootstrap"@,
        TelemetryEventDiscriminants::TriggerSubshellBootstrap => "Trigger Subshell Bootstrap"@,
        TelemetryEventDiscriminants::AddDenylistedSubshellCommand => "Add Denylisted Subshell Command"@,
        TelemetryEventDiscriminants::RemoveDenylistedSubshellCommand => "Remove Denylisted Subshell Command"@,
        TelemetryEventDiscriminants::AddAddedSubshellCommand => "Add Added Subshell Command"@,
        TelemetryEventDiscriminants::RemoveAddedSubshellCommand => "Remove Added Subshell Command"@,
        TelemetryEventDiscriminants::ReceivedSubshellRcFileDcs => "Received Subshell RC File DCS"@,
        TelemetryEventDiscriminants::AddDenylistedSshTmuxWrapperHost => "Add Denylisted SSH Tmux Wrapper Host"@,
        TelemetryEventDiscriminants::RemoveDenylistedSshTmuxWrapperHost => "Remove Denylisted SSH Tmux Wrapper Host"@,
        TelemetryEventDiscriminants::ToggleSshTmuxWrapper => "Toggle SSH Tmux Wrapper"@,
        TelemetryEventDiscriminants::ToggleSshRiftification => "Toggle SSH Riftification"@,
        TelemetryEventDiscriminants::SetSshExtensionInstallMode => "Set SSH Extension Install Mode"@,
        TelemetryEventDiscriminants::SshInteractiveSessionDetected => "SSH Interactive Session Detected"@,
        TelemetryEventDiscriminants::SshTmuxRiftifyBannerDisplayed => "Show Riftify SSH Banner"@,
        TelemetryEventDiscriminants::SshTmuxRiftifyBlockAccepted => "SSH Tmux Riftify Block Accepted"@,
        TelemetryEventDiscriminants::SshTmuxRiftifyBlockDismissed => "SSH Tmux Riftify Block Dismissed"@,
        TelemetryEventDiscriminants::RiftifyFooterShown => "Riftify Footer Shown"@,
        TelemetryEventDiscriminants::RiftifyFooterAcceptedRiftify => "Riftify Footer Accepted Riftify"@,
        TelemetryEventDiscriminants::SshTmuxRiftificationSuccess => "SSH Tmux Riftification Succeeded"@,
        TelemetryEventDiscriminants::SshTmuxRiftificationErrorBlock => "SSH Tmux Riftification Error Block"@,
        TelemetryEventDiscriminants::SshInstallTmuxBlockDisplayed => "SSH Install Tmux Block Displayed"@,
        TelemetryEventDiscriminants::SshInstallTmuxBlockAccepted => "SSH Install Tmux Block Accepted"@,
        TelemetryEventDiscriminants::SshInstallTmuxBlockDismissed => "SSH Install Tmux Block Dismissed"@,
        TelemetryEventDiscriminants::ShowAliasExpansionBanner => "Show Alias Expansion Banner"@,
        TelemetryEventDiscriminants::EnableAliasExpansionFromBanner => "Enable Alias Expansion From Banner"@,
        TelemetryEventDiscriminants::DismissAliasExpansionBanner => "Dismiss Alias Expansion Banner"@,
        TelemetryEventDiscriminants::ShowVimKeybindingsBanner => "Vim Keybindings Banner Displayed"@,
        TelemetryEventDiscriminants::EnableVimKeybindingsFromBanner => "Vim Keybindings Enabled from Banner"@,
        TelemetryEventDiscriminants::DismissVimKeybindingsBanner => "Vim Keybindings Banner Dismissed"@,
        TelemetryEventDiscriminants::InitiateReauth => "Initiate Reauth"@,
        TelemetryEventDiscriminants::InitiateAnonymousUserSignup => "Anonymous User Initiated Signup"@,
        TelemetryEventDiscriminants::AnonymousUserExpirationLockout => "Anonymous User Expiration Lockout"@,
        TelemetryEventDiscriminants::AnonymousUserLinkedFromBrowser => "Anonymous User Linked from Browser"@,
        TelemetryEventDiscriminants::AnonymousUserAttemptLoginGatedFeature => "Anonymous User Attempted Login-Gated Feature"@,
        TelemetryEventDiscriminants::AnonymousUserHitCloudObjectLimit => "Anonymous User Hit Cloud Object Limit"@,
        TelemetryEventDiscriminants::NeedsReauth => "Needs Reauth"@,
        TelemetryEventDiscriminants::DriveOpened => "Rift Drive Opened"@,
        TelemetryEventDiscriminants::ToggleSecretRedaction => "Toggle Secret Redaction"@,
        TelemetryEventDiscriminants::CustomSecretRegexAdded => "Custom Secret Regex Added"@,
        TelemetryEventDiscriminants::ToggleObfuscateSecret => "Toggle Obfuscate Secret"@,
        TelemetryEventDiscriminants::CopySecret => "Copy Obfuscated Secret"@,
        TelemetryEventDiscriminants::AutoGenerateMetadataSuccess => "Generate Metadata For Workflow Success"@,
        TelemetryEventDiscriminants::AutoGenerateMetadataError => "Generate Metadata For Workflow Error"@,
        TelemetryEventDiscriminants::UndoClose => "Undo Close"@,
        TelemetryEventDiscriminants::PtyThroughput => "PTY Throughput"@,
        TelemetryEventDiscriminants::DriveSharingOnboardingBlockShown => "Rift Drive Sharing onboarding block shown"@,
        TelemetryEventDiscriminants::CommandFileRun => "Command File Run"@,
        TelemetryEventDiscriminants::PageUpDownInEditorPressed => "Page Up/Down In Editor Pressed"@,
        TelemetryEventDiscriminants::JoinedSharedSession => "Joined Shared Session"@,
        TelemetryEventDiscriminants::SharedSessionModalUpgradePressed => "Shared Session Modal Upgrade Pressed"@,
        TelemetryEventDiscriminants::SharerCancelledGrantRole => "Sharer Cancelled Grant Role"@,
        TelemetryEventDiscriminants::SharerGrantModalDontShowAgain => "Don't Show Sharer Grant Modal Again"@,
        TelemetryEventDiscriminants::JumpToSharedSessionParticipant => "Jumped to Shared Session Participant"@,
        TelemetryEventDiscriminants::UnsupportedShell => "Unsupported Shell"@,
        TelemetryEventDiscriminants::LogOut => "Log Out"@,
        TelemetryEventDiscriminants::SettingsImportInitiated => "Settings Import Initiated"@,
        TelemetryEventDiscriminants::InviteTeammates => "Invited Teammates"@,
        TelemetryEventDiscriminants::OpenAndRiftifyDockerSubshell => "OpenAndRiftifyDockerSubshell"@,
        TelemetryEventDiscriminants::UpdateBlockFilterQuery => "Update Block Filter Query"@,
        TelemetryEventDiscriminants::UpdateBlockFilterQueryContextLines => "Update Block Filter Query With Context Lines"@,
        TelemetryEventDiscriminants::ToggleBlockFilterQuery => "Toggle Block Filter Query"@,
        TelemetryEventDiscriminants::ToggleBlockFilterCaseSensitivity => "Toggle Block Filter Case Sensitivity"@,
        TelemetryEventDiscriminants::ToggleBlockFilterRegex => "Toggle Block Filter Regex"@,
        TelemetryEventDiscriminants::ToggleBlockFilterInvert => "Toggle Block Filter Invert"@,
        TelemetryEventDiscriminants::BlockFilterToolbeltButtonClicked => "Block Filter Toolbelt Button Clicked"@,
        TelemetryEventDiscriminants::ToggleSnackbarInActivePane => "Toggle Sticky Command Header in Active Pane"@,
        TelemetryEventDiscriminants::PaneDragInitiated => "Pane Drag Inititiated"@,
        TelemetryEventDiscriminants::PaneDropped => "Pane Drag Ended"@,
        TelemetryEventDiscriminants::ObjectLinkCopied => "Object Link Copied"@,
        TelemetryEventDiscriminants::FileTreeToggled => "File Tree Toggled"@,
        TelemetryEventDiscriminants::FileTreeItemAttachedAsContext => "FileTree.AttachedAsContext"@,
        TelemetryEventDiscriminants::CodeSelectionAddedAsContext => "CodeView.SelectionAddedAsContext"@,
        TelemetryEventDiscriminants::FileTreeItemCreated => "FileTree.ItemCreated"@,
        TelemetryEventDiscriminants::PromptSuggestionShown => "Agent Mode Query Suggestions Banner Shown"@,
        TelemetryEventDiscriminants::SuggestedCodeDiffFailed => "Suggested Code Diff Failed"@,
        TelemetryEventDiscriminants::PromptSuggestionAccepted => "Agent Mode Query Suggestion Accepted"@,
        TelemetryEventDiscriminants::StaticPromptSuggestionsBannerShown => "Static Prompt Suggestions Banner Shown"@,
        TelemetryEventDiscriminants::StaticPromptSuggestionAccepted => "Static Prompt Suggestion Accepted"@,
        TelemetryEventDiscriminants::ToggleIntelligentAutosuggestionsSetting => "Toggle Intelligent Autosuggestions Setting"@,
        TelemetryEventDiscriminants::ToggleGlobalAI => "Toggle Global AI Enablement"@,
        TelemetryEventDiscriminants::ToggleCodebaseContext => "Toggle Agent Mode Codebase Context"@,
        TelemetryEventDiscriminants::ToggleAutoIndexing => "Toggle Codebase Context Autoindexing"@,
        TelemetryEventDiscriminants::ActiveIndexedReposChanged => "Active Indexed Repos Changed"@,
        TelemetryEventDiscriminants::ToggleActiveAI => "Toggle Active AI Enablement"@,
        TelemetryEventDiscriminants::TogglePromptSuggestionsSetting => "Toggle Agent Mode Query Suggestions Setting"@,
        TelemetryEventDiscriminants::ToggleCodeSuggestionsSetting => "Toggle Code Suggestions Setting"@,
        TelemetryEventDiscriminants::ToggleNaturalLanguageAutosuggestionsSetting => "Toggle Natural Language Autosuggestions Setting"@,
        TelemetryEventDiscriminants::ToggleSharedBlockTitleGenerationSetting => "Toggle SharedBlock Title Generation"@,
        TelemetryEventDiscriminants::ToggleGitOperationsAutogenSetting => "Toggle Git Operations Autogen Setting"@,
        TelemetryEventDiscriminants::ToggleVoiceInputSetting => "Toggle Voice Input Setting"@,
        TelemetryEventDiscriminants::TierLimitHit => "Tier Limit Hit"@,
        TelemetryEventDiscriminants::SharedObjectLimitHitBannerViewPlansButtonClicked => "Shared Object Limit Hit Banner View Plans Button Clicked"@,
        TelemetryEventDiscriminants::ResourceUsageStats => "perf_metrics.resource_usage"@,
        TelemetryEventDiscriminants::MemoryUsageStats => "perf_metrics.memory_usage"@,
        TelemetryEventDiscriminants::MemoryUsageHigh => "perf_metrics.memory_usage_high"@,
        TelemetryEventDiscriminants::CompletedSettingsImport => "Completed Settings Import"@,
        TelemetryEventDiscriminants::SettingsImportConfigFocused => "Focused Config in Settings Import"@,
        TelemetryEventDiscriminants::SettingsImportResetButtonClicked => "Clicked Reset to Defaults Button in Settings Import"@,
        TelemetryEventDiscriminants::SettingsImportConfigParsed => "Parsed Config in Settings Import"@,
        TelemetryEventDiscriminants::ITermMultipleHotkeys => "ITerm Profile has Multiple Hotkeys"@,
        TelemetryEventDiscriminants::UserMenuUpgradeClicked => "User Menu Upgrade Clicked"@,
        TelemetryEventDiscriminants::ToggleWorkspaceDecorationVisibility => "Toggled Tab Bar Visibility"@,
        TelemetryEventDiscriminants::UpdateAltScreenPaddingMode => "Updated Alt Screen Padding Mode"@,
        TelemetryEventDiscriminants::AddTabWithShell => "Add Tab With Shell"@,
        TelemetryEventDiscriminants::ToggleLigatureRendering => "Toggle Ligature Rendering"@,
        TelemetryEventDiscriminants::RepoOutlineConstructionSuccess => "Repo Outline Built Successfully"@,
        TelemetryEventDiscriminants::RepoOutlineConstructionFailed => "Repo Outline Construction Failed"@,
        TelemetryEventDiscriminants::KnowledgePaneOpened => "Knowledge Pane Opened"@,
        TelemetryEventDiscriminants::CodePanelsFileOpened => "CodePanels.FileOpened"@,
        TelemetryEventDiscriminants::PreviewPanePromoted => "Preview Pane Promoted"@,
        TelemetryEventDiscriminants::WSLRegistryError => "WSL Distribution Registry Error"@,
        TelemetryEventDiscriminants::AutoupdateUnableToCloseApplications => "Windows Autoupdate: Setup Unable to Close Applications"@,
        TelemetryEventDiscriminants::AutoupdateFileInUse => "Windows Autoupdate: File In Use Error"@,
        TelemetryEventDiscriminants::AutoupdateMutexTimeout => "Windows Autoupdate: Mutex Timeout"@,
        TelemetryEventDiscriminants::AutoupdateForcekillFailed => "Windows Autoupdate: Forcekill Failed"@,
        TelemetryEventDiscriminants::AutoupdateMinidumpCleanupFailed => "Windows Autoupdate: Minidump Cleanup Failed"@,
        TelemetryEventDiscriminants::ImageReceived => "Image Received"@,
        TelemetryEventDiscriminants::GrepToolSucceeded => "AgentMode.Grep.Succeeded"@,
        TelemetryEventDiscriminants::FileGlobToolSucceeded => "AgentMode.FileGlob.Succeeded"@,
        TelemetryEventDiscriminants::ShellTerminatedPrematurely => "Shell Terminated Prematurely"@,
        TelemetryEventDiscriminants::InputUXModeChanged => "Input.InputUXModeChanged"@,
        TelemetryEventDiscriminants::ContextChipInteracted => "Input.ContextChipInteracted"@,
        TelemetryEventDiscriminants::TabCloseButtonPositionUpdated => "Update Tab Close Button Position"@,
        TelemetryEventDiscriminants::AIExecutionProfileCreated => "AI Execution Profile Created"@,
        TelemetryEventDiscriminants::AIExecutionProfileDeleted => "AI Execution Profile Deleted"@,
        TelemetryEventDiscriminants::AIExecutionProfileSettingUpdated => "AI Execution Profile: Setting Updated"@,
        TelemetryEventDiscriminants::AIExecutionProfileAddedToAllowlist => "AI Execution Profile: Added To Allowlist"@,
        TelemetryEventDiscriminants::AIExecutionProfileAddedToDenylist => "AI Execution Profile: Added To Denylist"@,
        TelemetryEventDiscriminants::AIExecutionProfileRemovedFromAllowlist => "AI Execution Profile: Removed From Allowlist"@,
        TelemetryEventDiscriminants::AIExecutionProfileRemovedFromDenylist => "AI Execution Profile: Removed From Denylist"@,
        TelemetryEventDiscriminants::AIExecutionProfileModelSelected => "AI Execution Profile: Model Selected"@,
        TelemetryEventDiscriminants::AIExecutionProfileContextWindowSelected => "AI Execution Profile: Context Window Selected"@,
        TelemetryEventDiscriminants::OpenSlashMenu => "Open Slash Menu"@,
        TelemetryEventDiscriminants::SlashCommandAccepted => "Slash Command Accepted"@,
        TelemetryEventDiscriminants::CreateProjectPromptSubmitted => "Create Project Prompt Submitted"@,
        TelemetryEventDiscriminants::CreateProjectPromptSubmittedContent => "Create Project Prompt Submitted Content"@,
        TelemetryEventDiscriminants::CloneRepoPromptSubmitted => "Clone Repo Prompt Submitted"@,
        TelemetryEventDiscriminants::GetStartedSkipToTerminal => "Get Started Skip to Terminal"@,
        TelemetryEventDiscriminants::RecentMenuItemSelected => "Recent Menu Item Selected"@,
        TelemetryEventDiscriminants::OpenRepoFolderSubmitted => "Open Repo Folder Submitted"@,
        TelemetryEventDiscriminants::OutOfCreditsBannerClosed => "revenue.OutOfCreditsBannerClosed"@,
        TelemetryEventDiscriminants::AutoReloadModalClosed => "revenue.AutoReloadModalClosed"@,
        TelemetryEventDiscriminants::AutoReloadToggledFromBillingSettings => "revenue.AutoReloadToggledFromBillingSettings"@,
        TelemetryEventDiscriminants::DetectedIsolationPlatform => "Isolation.DetectedIsolationPlatform"@,
        TelemetryEventDiscriminants::LinearIssueLinkOpened => "Linear.IssueLinkOpened"@,
        TelemetryEventDiscriminants::FreeTierLimitHitInterstitialDisplayed => "FreeTierLimitHitInterstitial.Displayed"@,
        TelemetryEventDiscriminants::FreeTierLimitHitInterstitialUpgradeButtonClicked => "FreeTierLimitHitInterstitial.UpgradeButtonClicked"@,
        TelemetryEventDiscriminants::FreeTierLimitHitInterstitialClosed => "FreeTierLimitHitInterstitial.Closed"@,
        TelemetryEventDiscriminants::QueuedPromptPanelCollapseToggled => "QueuedPrompt.PanelCollapseToggled"@,
    }
}

/// The published description of events of kind `e`.
pub open spec fn telemetry_event_description(e: TelemetryEventDiscriminants) -> Seq<char> {
    match e {
        TelemetryEventDiscriminants::AutosuggestionInserted => "Accepted autosuggestion"@,
        TelemetryEventDiscriminants::BlockCompleted => "Created Block"@,
        TelemetryEventDiscriminants::BlockCompletedOnDogfoodOnly => "Completed a block, with extra information for dogfood only"@,
        TelemetryEventDiscriminants::BackgroundBlockStarted => "Rift created a background-output Block (whenever a processes has been backgrounded and yields some output)"@,
        TelemetryEventDiscriminants::BaselineCommandLatency => "Command execution time"@,
        TelemetryEventDiscriminants::SessionCreation => "Created a tab"@,
        TelemetryEventDiscriminants::Login => "Login is successful"@,
        TelemetryEventDiscriminants::OpenSuggestionsMenu => "Opened a suggestion menus, such as with up arrow or tab"@,
        TelemetryEventDiscriminants::ConfirmSuggestion => "Accepted tab completion suggestion"@,
        TelemetryEventDiscriminants::OpenContextMenu => "Opened context menu (such as right clicking, clicking on ellipses in the top right of a Block, etc.)"@,
        TelemetryEventDiscriminants::ContextMenuCopy => "Clicked \"Copy\" in context menu"@,
        TelemetryEventDiscriminants::ContextMenuOpenShareModal => "Opened \"Share\" modal via context menu"@,
        TelemetryEventDiscriminants::ContextMenuFindWithinBlocks => "Clicked \"find within blocks\" in context menu"@,
        TelemetryEventDiscriminants::ContextMenuCopyPrompt => "Clicked  \"Copy Prompt\" in context menu"@,
        TelemetryEventDiscriminants::ContextMenuToggleGitPromptDirtyIndicator => "Toggled indicator of dirty git prompt"@,
        TelemetryEventDiscriminants::ContextMenuInsertSelectedText => "Clicked \"insert into input\" in context menu"@,
        TelemetryEventDiscriminants::ContextMenuCopySelectedText => "Clicked \"Copy selected text\" in context menu"@,
        TelemetryEventDiscriminants::OpenPromptEditor => "Opened the prompt editor"@,
        TelemetryEventDiscriminants::PromptEdited => "Edited the prompt using the built-in prompt editor"@,
        TelemetryEventDiscriminants::ReinputCommands => "Clicked \"reinput commands\" in context menu"@,
        TelemetryEventDiscriminants::JumpToPreviousCommand => "Jumped to a previous command"@,
        TelemetryEventDiscriminants::BlockSelection => "Selected Block"@,
        TelemetryEventDiscriminants::BootstrappingSlow => "Slow bootstrap on session startup"@,
        TelemetryEventDiscriminants::BootstrappingSlowContents => "Contents of the bootstrap block if bootstrapping is slow"@,
        TelemetryEventDiscriminants::SessionAbandonedBeforeBootstrap => "Abandoned session before the bootstrapping completes"@,
        TelemetryEventDiscriminants::BootstrappingSucceeded => "Successful bootstrap for session"@,
        TelemetryEventDiscriminants::TabSingleResultAutocompletion => "Accepted tab completion and inserted into Input Editor"@,
        TelemetryEventDiscriminants::EditorUnhandledModifierKey => "Used modifier keybinding keystroke which is not currently supported"@,
        TelemetryEventDiscriminants::CopyInviteLink => "Clicked \"Copy Link\" on Referral Modal"@,
        TelemetryEventDiscriminants::OpenThemeChooser => "Opened theme chooser (list of different themes and visualizations of those themes)"@,
        TelemetryEventDiscriminants::ThemeSelection => "Selected theme"@,
        TelemetryEventDiscriminants::AppIconSelection => "Selected app icon"@,
        TelemetryEventDiscriminants::CursorDisplayType => "Selected cursor type"@,
        TelemetryEventDiscriminants::OpenThemeCreatorModal => "Opened theme creator modal (modal to create a new theme)"@,
        TelemetryEventDiscriminants::CreateCustomTheme => "Created a custom theme using the built-in theme creator"@,
        TelemetryEventDiscriminants::DeleteCustomTheme => "Deleted a custom theme using the built-in theme creator"@,
        TelemetryEventDiscriminants::SplitPane => "Split tab into multiple panes"@,
        TelemetryEventDiscriminants::UnableToAutoUpdateToNewVersion => "Update available but not authorized to install"@,
        TelemetryEventDiscriminants::AutoupdateRelaunchAttempt => "Attempted to relaunch the app after installing an update"@,
        TelemetryEventDiscriminants::SkipOnboardingSurvey => "Skipped onboarding survey as a whole"@,
        TelemetryEventDiscriminants::ToggleRestoreSession => "Toggled session restoration (\"Restore windows, tabs, panes, on startup\")"@,
        TelemetryEventDiscriminants::DatabaseStartUpError => "Failed to initialize sqlite upon startup"@,
        TelemetryEventDiscriminants::DatabaseReadError => "Database read error when trying to get app state for session restoration"@,
        TelemetryEventDiscriminants::DatabaseWriteError => "Database write error when trying to write app state for session restoration"@,
        TelemetryEventDiscriminants::AppStartup => "App is launched"@,
        TelemetryEventDiscriminants::LoggedOutStartup => "Started Rift in the logged-out / signed-out state"@,
        TelemetryEventDiscriminants::DownloadSource => "Whether the Rift was installed from the home page or through homebrew"@,
        TelemetryEventDiscriminants::SSHBootstrapAttempt => "Attempted bootstrapping for an SSH session"@,
        TelemetryEventDiscriminants::SSHControlMasterError => "Encountered a ControlMaster error during an SSH session"@,
        TelemetryEventDiscriminants::KeybindingChanged => "Edited a custom keybinding"@,
        TelemetryEventDiscriminants::KeybindingResetToDefault => "Reset a custom keybinding to its default"@,
        TelemetryEventDiscriminants::KeybindingRemoved => "Removed / cleared a keybinding"@,
        TelemetryEventDiscriminants::FeaturesPageAction => "Changed settings in Features Page"@,
        TelemetryEventDiscriminants::OpenWorkflowSearch => "Opened workflows search in command search pane"@,
        TelemetryEventDiscriminants::OpenQuakeModeWindow => "Toggled quake mode window when previously hidden or closed"@,
        TelemetryEventDiscriminants::OpenWelcomeTips => "Opened welcome tips in app"@,
        TelemetryEventDiscriminants::CompleteWelcomeTipFeature => "Completed all welcome tips items"@,
        TelemetryEventDiscriminants::DismissWelcomeTips => "Dismissed Welcome tips"@,
        TelemetryEventDiscriminants::ShowNotificationsDiscoveryBanner => "Showed notifications discovery banner in the block list"@,
        TelemetryEventDiscriminants::NotificationsDiscoveryBannerAction => "Showed banner introducing the notifications feature"@,
        TelemetryEventDiscriminants::ShowNotificationsErrorBanner => "Showed error banner for notifications feature"@,
        TelemetryEventDiscriminants::NotificationsErrorBannerAction => "Showed error banner for notifications feature"@,
        TelemetryEventDiscriminants::NotificationPermissionsRequested => "Requested permission for desktop notification permissions"@,
        TelemetryEventDiscriminants::NotificationsRequestPermissionsOutcome => "Recorded outcome of attempting to request desktop notification permissions"@,
        TelemetryEventDiscriminants::NotificationFailedToSend => "Failed to send desktop notification"@,
        TelemetryEventDiscriminants::NotificationClicked => "Clicked desktop notification sent from Rift"@,
        TelemetryEventDiscriminants::ToggleFindOption => "Changed settings in Find Toggle"@,
        TelemetryEventDiscriminants::SignUpButtonClicked => "Clicked \"Sign Up\" button"@,
        TelemetryEventDiscriminants::LoginButtonClicked => "Clicked on \"Log in\" button"@,
        TelemetryEventDiscriminants::LoginLaterButtonClicked => "Clicked \"Login later\" button"@,
        TelemetryEventDiscriminants::LoginLaterConfirmationButtonClicked => "Clicked \"Yes, skip login\" confirmation button"@,
        TelemetryEventDiscriminants::OpenNewSessionFromFilePath => "Dragged a file, folder, etc. into Rift to start a session"@,
        TelemetryEventDiscriminants::OpenTeamFromURI => "Showed settings view of their newly joined team within the app"@,
        TelemetryEventDiscriminants::SelectNavigationPaletteItem => "Selected session from the Session Navigation Palette (search across panes, tabs, and windows)"@,
        TelemetryEventDiscriminants::SelectCommandPaletteOption => "Selected option from command palette (i.e. CMD-P)"@,
        TelemetryEventDiscriminants::PaletteSearchOpened => "Opened the palette"@,
        TelemetryEventDiscriminants::PaletteSearchResultAccepted => "Accepted a command palette search result"@,
        TelemetryEventDiscriminants::PaletteSearchExited => "Exited command palette search without accepting a result"@,
        TelemetryEventDiscriminants::AuthCommonQuestionClicked => "Clicked on \"Common Question\" when logging in"@,
        TelemetryEventDiscriminants::AuthToggleFAQ => "Toggled FAQ Page when logging in"@,
        TelemetryEventDiscriminants::OpenAuthPrivacySettings => "Privacy settings are open during sign-in"@,
        TelemetryEventDiscriminants::TabRenamed => "Changed tab title"@,
        TelemetryEventDiscriminants::MoveActiveTab => "Move active tab left or right"@,
        TelemetryEventDiscriminants::MoveTab => "Move tab left or right"@,
        TelemetryEventDiscriminants::DragAndDropTab => "Tab dragged and dropped"@,
        TelemetryEventDiscriminants::DragAndDropTabGroup => "Tab group dragged and dropped"@,
        TelemetryEventDiscriminants::TabOperations => "Took operation on a tab: change color, close tab, close adjacent tabs, etc."@,
        TelemetryEventDiscriminants::EditedInputBeforePrecmd => "Input edited before precmd hook completes"@,
        TelemetryEventDiscriminants::TriedToExecuteBeforePrecmd => "Attempted to execute command before precmd, a shell stage that has metadata on a command such as ssh, prompt info, etc."@,
        TelemetryEventDiscriminants::ThinStrokesSettingChanged => "Changed thin strokes setting in settings -> Appearance"@,
        TelemetryEventDiscriminants::BookmarkBlockToggled => "Bookmarked or unbookmarked Block"@,
        TelemetryEventDiscriminants::JumpToBookmark => "Jumped to bookmarked Block"@,
        TelemetryEventDiscriminants::JumpToBottomofBlockButtonClicked => "Used the button to jump to the bottom of a Block"@,
        TelemetryEventDiscriminants::ToggleJumpToBottomofBlockButton => "Enabled or disabled the Jump to Bottom of Block Button"@,
        TelemetryEventDiscriminants::ToggleShowBlockDividers => "Enabled or disabled the Show Block Dividers Button"@,
        TelemetryEventDiscriminants::OpenLink => "Opened a highlighted link within input or output"@,
        TelemetryEventDiscriminants::OpenChangelogLink => "Opened the changelog link within the App"@,
        TelemetryEventDiscriminants::ShowInFileExplorer => "Opened a file in Finder by using \"Show in Finder\""@,
        TelemetryEventDiscriminants::CommandXRayTriggered => "Triggered Command X-Ray (hovering over a command for explanation)"@,
        TelemetryEventDiscriminants::OpenLaunchConfigSaveModal => "Opened save launch configuration modal"@,
        TelemetryEventDiscriminants::SaveLaunchConfig => "Saved current launch configuration of windows, tabs, and panes"@,
        TelemetryEventDiscriminants::OpenLaunchConfigFile => "Opened the launch config YAML file from modal once saved successfully"@,
        TelemetryEventDiscriminants::OpenLaunchConfig => "Opened launch config for a session"@,
        TelemetryEventDiscriminants::TeamCreated => "Created a Rift Drive team"@,
        TelemetryEventDiscriminants::TeamJoined => "Joined a Rift Drive team"@,
        TelemetryEventDiscriminants::TeamLeft => "Left a Rift Drive team"@,
        TelemetryEventDiscriminants::ToggleSettingsSync => "Toggle Settings Sync"@,
        TelemetryEventDiscriminants::TeamLinkCopied => "Copied a Rift Drive team link"@,
        TelemetryEventDiscriminants::RemovedUserFromTeam => "Remove user from Rift Drive team"@,
        TelemetryEventDiscriminants::DeletedWorkflow => "Deleted workflow from Rift Drive team"@,
        TelemetryEventDiscriminants::DeletedNotebook => "Deleted notebook from Rift Drive team"@,
        TelemetryEventDiscriminants::ToggleApprovalsModal => "Opened or closed teams modal"@,
        TelemetryEventDiscriminants::SendEmailInvites => "Sent email invites for Rift Drive team"@,
        TelemetryEventDiscriminants::CommandCorrection => "Accepted command correction"@,
        TelemetryEventDiscriminants::SetLineHeight => "Set line height through Settings -> Appearance"@,
        TelemetryEventDiscriminants::ResourceCenterOpened => "Opened Resource Center pane"@,
        TelemetryEventDiscriminants::ResourceCenterTipsCompleted => "Completed resource center tips"@,
        TelemetryEventDiscriminants::ResourceCenterTipsSkipped => "Skipped welcome tips for new users"@,
        TelemetryEventDiscriminants::KeybindingsPageOpened => "Opened the keybinding page within the resource center"@,
        TelemetryEventDiscriminants::CommandSearchOpened => "Opened command search (universal search panel to search)"@,
        TelemetryEventDiscriminants::CommandSearchExited => "Exited command search (universal search panel to search) without accepting a result"@,
        TelemetryEventDiscriminants::CommandSearchResultAccepted => "Accepted command search result"@,
        TelemetryEventDiscriminants::CommandSearchFilterChanged => "Changed command search filter"@,
        TelemetryEventDiscriminants::GlobalSearchOpened => "Opened the global search view"@,
        TelemetryEventDiscriminants::GlobalSearchQueryStarted => "Started a global search (rift_ripgrep) search"@,
        TelemetryEventDiscriminants::AICommandSearchOpened => "Opened the modal for AI Command Search, where you can use natural language to search for commands"@,
        TelemetryEventDiscriminants::OpenedAltScreenFind => "Opened the Find bar in the Alt Screen"@,
        TelemetryEventDiscriminants::UserInitiatedClose => "Attempted to either quit the app or close a window"@,
        TelemetryEventDiscriminants::QuitModalShown => "Showed an alert modal to warn the user about closing the app/window with a running process"@,
        TelemetryEventDiscriminants::QuitModalCancel => "`Cancel` button on the alert modal was pressed"@,
        TelemetryEventDiscriminants::QuitModalDisabled => "The quit modal dialog has been disabled and will not popup when a user closes Rift while a session is running"@,
        TelemetryEventDiscriminants::UserInitiatedLogOut => "Confirms a user has explicitly logged out of the application"@,
        TelemetryEventDiscriminants::LogOutModalShown => "When the log out modal is displayed"@,
        TelemetryEventDiscriminants::LogOutModalCancel => "Escaped the log out flow by canceling the log out modal"@,
        TelemetryEventDiscriminants::SetOpacity => "Changed the opacity (window transparency) from the `Settings -> Appearance` dialog"@,
        TelemetryEventDiscriminants::SetBlurRadius => "Changed the blur radius from the `Settings -> Appearance` dialog"@,
        TelemetryEventDiscriminants::ToggleDimInactivePanes => "Whether the dim inactive panes feature has been toggled"@,
        TelemetryEventDiscriminants::InputModeChanged => "Changed the Input Editor Mode (Pinned to Bottom, Pinned to Top, Classic / Waterfall Mode)"@,
        TelemetryEventDiscriminants::PtySpawned => "Tracks the manner by which we create a new shell process (new codepath vs. old codepath).  Used to ensure nothing breaks as we change parts of our infrastructure."@,
        TelemetryEventDiscriminants::InitialWorkingDirectoryConfigurationChanged => "Replaced the default working directory with a different path"@,
        TelemetryEventDiscriminants::ToggleFocusPaneOnHover => "Toggled on/off focus pane on hover feature, which causes panes to automatically focus when hovering over them"@,
        TelemetryEventDiscriminants::OpenInputContextMenu => "Opened the Input Editor's context menu"@,
        TelemetryEventDiscriminants::InputCutSelectedText => "Cut the highlighted text via the Input Editor's context menu (right clicking the buffer)"@,
        TelemetryEventDiscriminants::InputCopySelectedText => "Copied selected text from Input Editor"@,
        TelemetryEventDiscriminants::InputSelectAll => "Selected all the text in the Input Editor via its context menu (right clicking the buffer)"@,
        TelemetryEventDiscriminants::InputPaste => "Pasted text into the Input Editor's via its context menu (right clicking the buffer)"@,
        TelemetryEventDiscriminants::InputCommandSearch => "Opened Command Search via the Input Editor's context menu (right clicking the buffer)"@,
        TelemetryEventDiscriminants::InputAICommandSearch => "Opened AI Command Search via the Input Editor's context menu (right clicking the buffer)"@,
        TelemetryEventDiscriminants::SaveAsWorkflowModal => "Opened the modal to create a new workflow using a Block's context--command, etc."@,
        TelemetryEventDiscriminants::ExperimentTriggered => "Client assigned to A/B test"@,
        TelemetryEventDiscriminants::ToggleSyncAllPanesInAllTabs => "Enable the synchronization of the Input Editor's buffer to all the panes in all the tabs"@,
        TelemetryEventDiscriminants::ToggleSyncAllPanesInTab => "Enable the synchronization of the Input Editor's buffer to all the panes in the current tab"@,
        TelemetryEventDiscriminants::ToggleSameLinePrompt => "Toggled on/off same line prompt"@,
        TelemetryEventDiscriminants::ToggleNewWindowsAtCustomSize => "Whether the new windows at custom size feature has been toggled"@,
        TelemetryEventDiscriminants::SetNewWindowsAtCustomSize => "Set new windows at custom size through Settings -> Appearance"@,
        TelemetryEventDiscriminants::DisableInputSync => "Disabled / turn off the Input Synchronization (across editors)"@,
        TelemetryEventDiscriminants::ToggleTabIndicators => "Enabled or disabled the tab indicators (failed command, etc.)"@,
        TelemetryEventDiscriminants::TogglePreserveActiveTabColor => "Enabled or disabled preserving the active tab color"@,
        TelemetryEventDiscriminants::ShowSubshellBanner => "Displayed the banner asking whether Rift should Riftify the current session via Rift's subshell wrapper"@,
        TelemetryEventDiscriminants::DeclineSubshellBootstrap => "Developer declined the Rift banner to Riftify the current session"@,
        TelemetryEventDiscriminants::TriggerSubshellBootstrap => "Attempted to Riftify the current session via Rift's subshell wrapper"@,
        TelemetryEventDiscriminants::AddDenylistedSubshellCommand => "Explicitly prevent a command from being Riftified via Rift's subshell wrapper"@,
        TelemetryEventDiscriminants::RemoveDenylistedSubshellCommand => "Removed a command from the list of commands to IGNORE when trying to Riftify via Rift's subshell wrapper"@,
        TelemetryEventDiscriminants::AddAddedSubshellCommand => "Added a command to be automatically Riftified via Rift's subshell wrapper"@,
        TelemetryEventDiscriminants::RemoveAddedSubshellCommand => "Removed a command from the list of commands to automatically Riftify via Rift's subshell wrapper"@,
        TelemetryEventDiscriminants::ReceivedSubshellRcFileDcs => "Spawned a subshell to be automatically Riftified"@,
        TelemetryEventDiscriminants::AddDenylistedSshTmuxWrapperHost => "Added a SSH host to the denylist for prompting for Tmux Wrapper"@,
        TelemetryEventDiscriminants::RemoveDenylistedSshTmuxWrapperHost => "Removed an SSH host from the denylist from prompting for Tmux Wrapper"@,
        TelemetryEventDiscriminants::ToggleSshTmuxWrapper => "Changed the setting for SSH sessions to prompt for Tmux Wrapper"@,
        TelemetryEventDiscriminants::ToggleSshRiftification => "Changed the setting for SSH sessions to be warified"@,
        TelemetryEventDiscriminants::SetSshExtensionInstallMode => "Changed the SSH extension install mode (always ask / always allow / always skip)"@,
        TelemetryEventDiscriminants::SshInteractiveSessionDetected => "An interactive SSH session was detected"@,
        TelemetryEventDiscriminants::SshTmuxRiftifyBannerDisplayed => "Displayed the banner asking whether Rift should Riftify the current SSH session via Rift's SSH Wrapper"@,
        TelemetryEventDiscriminants::SshTmuxRiftifyBlockAccepted => "User accepted an ssh tmux riftify block"@,
        TelemetryEventDiscriminants::SshTmuxRiftifyBlockDismissed => "User dismissed an ssh tmux riftify block"@,
        TelemetryEventDiscriminants::RiftifyFooterShown => "Displayed the riftify footer for a detected subshell or SSH session"@,
        TelemetryEventDiscriminants::RiftifyFooterAcceptedRiftify => "User clicked Riftify in the riftify footer"@,
        TelemetryEventDiscriminants::SshTmuxRiftificationSuccess => "Ssh tmux riftification succeeded"@,
        TelemetryEventDiscriminants::SshTmuxRiftificationErrorBlock => "Ssh tmux riftification errored out"@,
        TelemetryEventDiscriminants::SshInstallTmuxBlockDisplayed => "Displayed an ssh install tmux block"@,
        TelemetryEventDiscriminants::SshInstallTmuxBlockAccepted => "User accepted an ssh install tmux block"@,
        TelemetryEventDiscriminants::SshInstallTmuxBlockDismissed => "User dismissed an ssh install tmux block"@,
        TelemetryEventDiscriminants::ShowAliasExpansionBanner => "Displayed the banner asking whether Rift should automatically expand aliases within the Input Editor"@,
        TelemetryEventDiscriminants::EnableAliasExpansionFromBanner => "Enabled automatic alias expansion within the Input Editor from the banner"@,
        TelemetryEventDiscriminants::DismissAliasExpansionBanner => "Dismissed the banner to enable automatic alias expansion within the Input Editor"@,
        TelemetryEventDiscriminants::ShowVimKeybindingsBanner => "Displayed the banner asking whether Rift should enable Vim keybindings in the Input Editor"@,
        TelemetryEventDiscriminants::EnableVimKeybindingsFromBanner => "Enabled Vim keybindings in the Input Editor from the banner"@,
        TelemetryEventDiscriminants::DismissVimKeybindingsBanner => "Dismissed the banner to enable Vim keybindings in the Input Editor"@,
        TelemetryEventDiscriminants::InitiateReauth => "Started the flow to re-authenticate the client"@,
        TelemetryEventDiscriminants::InitiateAnonymousUserSignup => "An anonymous user initiated the sign up flow"@,
        TelemetryEventDiscriminants::AnonymousUserExpirationLockout => "An anonymous user opened Rift after their conversion deadline and was locked out"@,
        TelemetryEventDiscriminants::AnonymousUserLinkedFromBrowser => "Received an auth payload from anonymous user after linking in browser"@,
        TelemetryEventDiscriminants::AnonymousUserAttemptLoginGatedFeature => "Anonymous user attempted to access a login-gated feature"@,
        TelemetryEventDiscriminants::AnonymousUserHitCloudObjectLimit => "Anonymous user attempted to create a cloud object past their personal object limit"@,
        TelemetryEventDiscriminants::NeedsReauth => "User needs to re-authenticate"@,
        TelemetryEventDiscriminants::DriveOpened => "Opened Rift Drive panel"@,
        TelemetryEventDiscriminants::ToggleSecretRedaction => "Toggled on/off the setting for Secret Redaction - attempts to redact secrets and sensitive information"@,
        TelemetryEventDiscriminants::CustomSecretRegexAdded => "Custom Secret Regex Added"@,
        TelemetryEventDiscriminants::ToggleObfuscateSecret => "Revealed or hid a secret"@,
        TelemetryEventDiscriminants::CopySecret => "Copied a secret's obfuscated contents to clipboard"@,
        TelemetryEventDiscriminants::AutoGenerateMetadataSuccess => "Successfully generated metadata for a workflow using Rift AI"@,
        TelemetryEventDiscriminants::AutoGenerateMetadataError => "Failed to generate metadata for a workflow using Rift AI"@,
        TelemetryEventDiscriminants::UndoClose => "Re-opened a closed tab or window (undo closing a tab or window)"@,
        TelemetryEventDiscriminants::PtyThroughput => "A sample of the max PTY throughput in bytes/sec"@,
        TelemetryEventDiscriminants::DriveSharingOnboardingBlockShown => "Showed onboarding block for Rift Drive sharing"@,
        TelemetryEventDiscriminants::CommandFileRun => "Opened a .cmd or unix executable file and ran it directly in Rift"@,
        TelemetryEventDiscriminants::PageUpDownInEditorPressed => "Pressed `PAGE-UP` or `PAGE-DOWN` within the Input Editor"@,
        TelemetryEventDiscriminants::JoinedSharedSession => "When you join another instance of Rift using shared sessions"@,
        TelemetryEventDiscriminants::SharedSessionModalUpgradePressed => "Pressed upgrade after reaching max session sharing limit"@,
        TelemetryEventDiscriminants::SharerCancelledGrantRole => "When you cancel granting a role to a shared session participant"@,
        TelemetryEventDiscriminants::SharerGrantModalDontShowAgain => "When you check don't show again on the confirmation modal for granting a role"@,
        TelemetryEventDiscriminants::JumpToSharedSessionParticipant => "Clicked on a shared session participant avatar to jump to their location in the session"@,
        TelemetryEventDiscriminants::UnsupportedShell => "Booted Rift with a shell that isn't supported"@,
        TelemetryEventDiscriminants::LogOut => "Logged out of the Rift client"@,
        TelemetryEventDiscriminants::SettingsImportInitiated => "Started the import settings flow for new users"@,
        TelemetryEventDiscriminants::InviteTeammates => "Sent emails to invite teammates to join Rift Drive team"@,
        TelemetryEventDiscriminants::OpenAndRiftifyDockerSubshell => "Riftifying a docker subshell from using the docker extension"@,
        TelemetryEventDiscriminants::UpdateBlockFilterQuery => "When a new filter is applied to a block"@,
        TelemetryEventDiscriminants::UpdateBlockFilterQueryContextLines => "When the number of context lines for a block filter query is updated"@,
        TelemetryEventDiscriminants::ToggleBlockFilterQuery => "Toggled on/off a block filter query"@,
        TelemetryEventDiscriminants::ToggleBlockFilterCaseSensitivity => "Toggled on/off case sensitivity within the block filter editor"@,
        TelemetryEventDiscriminants::ToggleBlockFilterRegex => "Toggled on/off regex within the block filter editor"@,
        TelemetryEventDiscriminants::ToggleBlockFilterInvert => "Toggled on/off invert within the block filter editor"@,
        TelemetryEventDiscriminants::BlockFilterToolbeltButtonClicked => "Clicked the block filter icon in the top-right of a block"@,
        TelemetryEventDiscriminants::ToggleSnackbarInActivePane => "Expanded or collapsed the sticky command header in the active pane"@,
        TelemetryEventDiscriminants::PaneDragInitiated => "Initiated dragging a pane via the header"@,
        TelemetryEventDiscriminants::PaneDropped => "Ended dragging a pane via the pane header"@,
        TelemetryEventDiscriminants::ObjectLinkCopied => "The web link to an object has been copied."@,
        TelemetryEventDiscriminants::FileTreeToggled => "Opened the file tree/project explorer"@,
        TelemetryEventDiscriminants::FileTreeItemAttachedAsContext => "Attached a file or directory as context from the file tree"@,
        TelemetryEventDiscriminants::CodeSelectionAddedAsContext => "Added selected code as context from the code editor"@,
        TelemetryEventDiscriminants::FileTreeItemCreated => "Created a new file from the file tree"@,
        TelemetryEventDiscriminants::PromptSuggestionShown => "Prompt Suggestions banner shown"@,
        TelemetryEventDiscriminants::SuggestedCodeDiffFailed => "Suggested Code Diff Failed"@,
        TelemetryEventDiscriminants::PromptSuggestionAccepted => "Prompt Suggestion accepted"@,
        TelemetryEventDiscriminants::StaticPromptSuggestionsBannerShown => "Static Prompt Suggestions banner shown"@,
        TelemetryEventDiscriminants::StaticPromptSuggestionAccepted => "Static Prompt Suggestion accepted"@,
        TelemetryEventDiscriminants::ToggleIntelligentAutosuggestionsSetting => "Toggled on/off the intelligent autosuggestions setting"@,
        TelemetryEventDiscriminants::ToggleGlobalAI => "Toggled global AI enablement."@,
        TelemetryEventDiscriminants::ToggleCodebaseContext => "Toggled on/off the enablement of codebase context usage for Agent Mode."@,
        TelemetryEventDiscriminants::ToggleAutoIndexing => "Toggled on/off the enablement of autoindexing for codebase context."@,
        TelemetryEventDiscriminants::ActiveIndexedReposChanged => "Active indexed repositories changed, affecting codebase context."@,
        TelemetryEventDiscriminants::ToggleActiveAI => "Toggled active AI enablement."@,
        TelemetryEventDiscriminants::TogglePromptSuggestionsSetting => "Toggled on/off the prompt suggestions setting"@,
        TelemetryEventDiscriminants::ToggleCodeSuggestionsSetting => "Toggled on/off the code suggestions setting"@,
        TelemetryEventDiscriminants::ToggleNaturalLanguageAutosuggestionsSetting => "Toggled on/off the natural language autosuggestions setting"@,
        TelemetryEventDiscriminants::ToggleSharedBlockTitleGenerationSetting => "Toggled on/off the shared block title generation setting"@,
        TelemetryEventDiscriminants::ToggleGitOperationsAutogenSetting => "Toggled on/off the git operations autogen setting"@,
        TelemetryEventDiscriminants::ToggleVoiceInputSetting => "Toggled on/off the voice input setting"@,
        TelemetryEventDiscriminants::TierLimitHit => "User hit the tier limit for a feature"@,
        TelemetryEventDiscriminants::SharedObjectLimitHitBannerViewPlansButtonClicked => "Clicked the 'View Plans' button on the persistent drive banner"@,
        TelemetryEventDiscriminants::ResourceUsageStats => "Periodic report on application resource usage statistics"@,
        TelemetryEventDiscriminants::MemoryUsageStats => "Periodic report on application memory usage statistics"@,
        TelemetryEventDiscriminants::MemoryUsageHigh => "Total application memory usage exceeded a significant threshold"@,
        TelemetryEventDiscriminants::CompletedSettingsImport => "Imported a terminal's settings via the settings import onboarding block"@,
        TelemetryEventDiscriminants::SettingsImportConfigFocused => "Selected a terminal in the settings import onboarding block"@,
        TelemetryEventDiscriminants::SettingsImportResetButtonClicked => "Reset the imported settings in the settings import onboarding block"@,
        TelemetryEventDiscriminants::SettingsImportConfigParsed => "Parsed a terminal's settings as part of settings import"@,
        TelemetryEventDiscriminants::ITermMultipleHotkeys => "Attempted to import an iTerm profile that contained multiple hotkey window bindings"@,
        TelemetryEventDiscriminants::UserMenuUpgradeClicked => "Clicked the 'Upgrade' menu item in the user menu"@,
        TelemetryEventDiscriminants::ToggleWorkspaceDecorationVisibility => "Toggled when to display the tab bar"@,
        TelemetryEventDiscriminants::UpdateAltScreenPaddingMode => "Updated the custom padding setting for the alt-screen"@,
        TelemetryEventDiscriminants::AddTabWithShell => "Added a tab with specific shell"@,
        TelemetryEventDiscriminants::ToggleLigatureRendering => "Toggled ligature rendering"@,
        TelemetryEventDiscriminants::RepoOutlineConstructionSuccess => "Repository outline built successfully for providing codebase context"@,
        TelemetryEventDiscriminants::RepoOutlineConstructionFailed => "Repository outline built failed"@,
        TelemetryEventDiscriminants::KnowledgePaneOpened => "Knowledge Pane Opened"@,
        TelemetryEventDiscriminants::CodePanelsFileOpened => "Opened a file from code review, project explorer, or global search"@,
        TelemetryEventDiscriminants::PreviewPanePromoted => "Promoted a preview code tab to a normal tab"@,
        TelemetryEventDiscriminants::WSLRegistryError => "Encountered an error while fetching WSL distributions from the registry"@,
        TelemetryEventDiscriminants::AutoupdateUnableToCloseApplications => "The Windows auto-update installer was unable to automatically close all applications before installing the update"@,
        TelemetryEventDiscriminants::AutoupdateFileInUse => "The Windows auto-update installer encountered a file-in-use error during installation"@,
        TelemetryEventDiscriminants::AutoupdateMutexTimeout => "The Windows auto-update installer timed out waiting for Rift to release its mutex; a force-kill was attempted"@,
        TelemetryEventDiscriminants::AutoupdateForcekillFailed => "The Windows auto-update installer failed to force-kill Rift after the mutex timeout"@,
        TelemetryEventDiscriminants::AutoupdateMinidumpCleanupFailed => "The Windows auto-update installer failed to clean up the orphaned minidump server process"@,
        TelemetryEventDiscriminants::ImageReceived => "Received an image through an image protocol over the pty"@,
        TelemetryEventDiscriminants::GrepToolSucceeded => "The grep tool completed successfully"@,
        TelemetryEventDiscriminants::FileGlobToolSucceeded => "The file glob tool completed successfully"@,
        TelemetryEventDiscriminants::ShellTerminatedPrematurely => "The shell process terminated prematurely"@,
        TelemetryEventDiscriminants::InputUXModeChanged => "Changed the input UX mode"@,
        TelemetryEventDiscriminants::ContextChipInteracted => "Interacted with a context chip"@,
        TelemetryEventDiscriminants::TabCloseButtonPositionUpdated => "Updated the tab close button position"@,
        TelemetryEventDiscriminants::AIExecutionProfileCreated => "A new AI execution profile was created"@,
        TelemetryEventDiscriminants::AIExecutionProfileDeleted => "An AI execution profile was deleted"@,
        TelemetryEventDiscriminants::AIExecutionProfileSettingUpdated => "An AI execution profile setting was updated"@,
        TelemetryEventDiscriminants::AIExecutionProfileAddedToAllowlist => "An item was added to an AI execution profile allowlist"@,
        TelemetryEventDiscriminants::AIExecutionProfileAddedToDenylist => "An item was added to an AI execution profile denylist"@,
        TelemetryEventDiscriminants::AIExecutionProfileRemovedFromAllowlist => "An item was removed from an AI execution profile allowlist"@,
        TelemetryEventDiscriminants::AIExecutionProfileRemovedFromDenylist => "An item was removed from an AI execution profile denylist"@,
        TelemetryEventDiscriminants::AIExecutionProfileModelSelected => "An AI model was selected for an AI execution profile"@,
        TelemetryEventDiscriminants::AIExecutionProfileContextWindowSelected => "Selected a context window limit for an execution profile's base model"@,
        TelemetryEventDiscriminants::OpenSlashMenu => "Opened the slash commands menu"@,
        TelemetryEventDiscriminants::SlashCommandAccepted => "User accepted a slash command"@,
        TelemetryEventDiscriminants::CreateProjectPromptSubmitted => "User submitted a prompt from the create project view"@,
        TelemetryEventDiscriminants::CreateProjectPromptSubmittedContent => "User submitted custom prompt content from the create project view"@,
        TelemetryEventDiscriminants::CloneRepoPromptSubmitted => "User submitted a repository URL from the clone repo view"@,
        TelemetryEventDiscriminants::GetStartedSkipToTerminal => "User clicked skip to terminal from get started view"@,
        TelemetryEventDiscriminants::RecentMenuItemSelected => "User selected an item from the recents list on the new tab zero state"@,
        TelemetryEventDiscriminants::OpenRepoFolderSubmitted => "User selected a folder to open as a repo from the \"Open repository\" button"@,
        TelemetryEventDiscriminants::OutOfCreditsBannerClosed => "User closed the 'Out of credits' banner (dismissed or purchased credits)"@,
        TelemetryEventDiscriminants::AutoReloadModalClosed => "User closed the auto-reload modal (either dismissed or enabled auto-reload)"@,
        TelemetryEventDiscriminants::AutoReloadToggledFromBillingSettings => "User toggled auto-reload in Billing & Usage settings"@,
        TelemetryEventDiscriminants::DetectedIsolationPlatform => "Detected that Rift is running in an isolated sandbox"@,
        TelemetryEventDiscriminants::LinearIssueLinkOpened => "User opened a rift://linear deeplink to work on an issue"@,
        TelemetryEventDiscriminants::FreeTierLimitHitInterstitialDisplayed => "The free tier limit hit interstitial was displayed"@,
        TelemetryEventDiscriminants::FreeTierLimitHitInterstitialUpgradeButtonClicked => "User clicked the 'Upgrade' button in the free tier limit hit interstitial"@,
        TelemetryEventDiscriminants::FreeTierLimitHitInterstitialClosed => "User closed the free tier limit hit interstitial"@,
        TelemetryEventDiscriminants::QueuedPromptPanelCollapseToggled => "User toggled the queued prompts panel collapse state"@,
    }
}

/// The feature flags that gate telemetry events.
#[derive(Clone, Copy, Debug, PartialEq, Eq, Hash, Structural)]
pub enum FeatureFlag {
    MinimalistUI,
    RecordPtyThroughput,
    ViewingSharedSessions,
    CreatingSharedSessions,
    FileTree,
    FullSourceCodeEmbedding,
    SharedBlockTitleGeneration,
    GitOperationsInCodeReview,
    FullScreenZenMode,
    ShellSelector,
    Ligatures,
    AIRules,
    MultiProfile,
    GetStartedTab,
    QueueSlashCommand,
}

/// When events of a kind are recorded: always, while a feature flag is on,
/// or on the listed release channels only.
#[derive(Clone, Debug, PartialEq)]
pub enum EnablementState {
    Always,
    Flag(FeatureFlag),
    ChannelSpecific { channels: Vec<String> },
}

/// The mathematical form of an [`EnablementState`].
pub enum Enablement {
    Always,
    Flag(FeatureFlag),
    ChannelSpecific(Seq<Seq<char>>),
}

impl View for EnablementState {
    type V = Enablement;

    open spec fn view(&self) -> Enablement {
        match self {
            EnablementState::Always => Enablement::Always,
            EnablementState::Flag(f) => Enablement::Flag(*f),
            EnablementState::ChannelSpecific { channels } => Enablement::ChannelSpecific(
                channels@.map_values(|c: String| c@),
            ),
        }
    }
}

/// When events of kind `e` are recorded. Most kinds are always recorded;
/// the listed ones only behind their feature flag, or on no channel at all.
pub open spec fn telemetry_event_enablement(e: TelemetryEventDiscriminants) -> Enablement {
    match e {
        TelemetryEventDiscriminants::BlockCompletedOnDogfoodOnly => Enablement::ChannelSpecific(Seq::empty()),
        TelemetryEventDiscriminants::ToggleShowBlockDividers => Enablement::Flag(FeatureFlag::MinimalistUI),
        TelemetryEventDiscriminants::PtyThroughput => Enablement::Flag(FeatureFlag::RecordPtyThroughput),
        TelemetryEventDiscriminants::JoinedSharedSession => Enablement::Flag(FeatureFlag::ViewingSharedSessions),
        TelemetryEventDiscriminants::SharedSessionModalUpgradePressed => Enablement::Flag(FeatureFlag::CreatingSharedSessions),
        TelemetryEventDiscriminants::FileTreeToggled => Enablement::Flag(FeatureFlag::FileTree),
        TelemetryEventDiscriminants::FileTreeItemAttachedAsContext => Enablement::Flag(FeatureFlag::FileTree),
        TelemetryEventDiscriminants::CodeSelectionAddedAsContext => Enablement::ChannelSpecific(Seq::empty()),
        TelemetryEventDiscriminants::FileTreeItemCreated => Enablement::Flag(FeatureFlag::FileTree),
        TelemetryEventDiscriminants::ActiveIndexedReposChanged => Enablement::Flag(FeatureFlag::FullSourceCodeEmbedding),
        TelemetryEventDiscriminants::ToggleNaturalLanguageAutosuggestionsSetting => Enablement::ChannelSpecific(Seq::empty()),
        TelemetryEventDiscriminants::ToggleSharedBlockTitleGenerationSetting => Enablement::Flag(FeatureFlag::SharedBlockTitleGeneration),
        TelemetryEventDiscriminants::ToggleGitOperationsAutogenSetting => Enablement::Flag(FeatureFlag::GitOperationsInCodeReview),
        TelemetryEventDiscriminants::MemoryUsageStats => Enablement::ChannelSpecific(Seq::empty()),
        TelemetryEventDiscriminants::ToggleWorkspaceDecorationVisibility => Enablement::Flag(FeatureFlag::FullScreenZenMode),
        TelemetryEventDiscriminants::AddTabWithShell => Enablement::Flag(FeatureFlag::ShellSelector),
        TelemetryEventDiscriminants::ToggleLigatureRendering => Enablement::Flag(FeatureFlag::Ligatures),
        TelemetryEventDiscriminants::RepoOutlineConstructionSuccess => Enablement::ChannelSpecific(Seq::empty()),
        TelemetryEventDiscriminants::RepoOutlineConstructionFailed => Enablement::ChannelSpecific(Seq::empty()),
        TelemetryEventDiscriminants::KnowledgePaneOpened => Enablement::Flag(FeatureFlag::AIRules),
        TelemetryEventDiscriminants::AIExecutionProfileCreated => Enablement::Flag(FeatureFlag::MultiProfile),
        TelemetryEventDiscriminants::AIExecutionProfileDeleted => Enablement::Flag(FeatureFlag::MultiProfile),
        TelemetryEventDiscriminants::AIExecutionProfileSettingUpdated => Enablement::Flag(FeatureFlag::MultiProfile),
        TelemetryEventDiscriminants::AIExecutionProfileAddedToAllowlist => Enablement::Flag(FeatureFlag::MultiProfile),
        TelemetryEventDiscriminants::AIExecutionProfileAddedToDenylist => Enablement::Flag(FeatureFlag::MultiProfile),
        TelemetryEventDiscriminants::AIExecutionProfileRemovedFromAllowlist => Enablement::Flag(FeatureFlag::MultiProfile),
        TelemetryEventDiscriminants::AIExecutionProfileRemovedFromDenylist => Enablement::Flag(FeatureFlag::MultiProfile),
        TelemetryEventDiscriminants::AIExecutionProfileModelSelected => Enablement::Flag(FeatureFlag::MultiProfile),
        TelemetryEventDiscriminants::AIExecutionProfileContextWindowSelected => Enablement::Flag(FeatureFlag::MultiProfile),
        TelemetryEventDiscriminants::CreateProjectPromptSubmitted => Enablement::Flag(FeatureFlag::GetStartedTab),
        TelemetryEventDiscriminants::CreateProjectPromptSubmittedContent => Enablement::Flag(FeatureFlag::GetStartedTab),
        TelemetryEventDiscriminants::CloneRepoPromptSubmitted => Enablement::Flag(FeatureFlag::GetStartedTab),
        TelemetryEventDiscriminants::GetStartedSkipToTerminal => Enablement::Flag(FeatureFlag::GetStartedTab),
        TelemetryEventDiscriminants::QueuedPromptPanelCollapseToggled => Enablement::Flag(FeatureFlag::QueueSlashCommand),
        _ => Enablement::Always,
    }
}

/// Recorded on no release channel.
fn on_no_channel() -> (r: EnablementState)
    ensures
        r@ == Enablement::ChannelSpecific(Seq::empty()),
{
    let r = EnablementState::ChannelSpecific { channels: Vec::new() };
    proof {
        assert(r@->ChannelSpecific_0 =~= Seq::<Seq<char>>::empty());
    }
    r
}

/// Whether events of this kind carry content the user wrote: the contents of
/// a slow bootstrap block and a custom project prompt do; no other kind does.
pub open spec fn telemetry_event_contains_ugc(e: TelemetryEventDiscriminants) -> bool {
    e == TelemetryEventDiscriminants::BootstrappingSlowContents
        || e == TelemetryEventDiscriminants::CreateProjectPromptSubmittedContent
}

impl TelemetryEventDiscriminants {
    /// Whether events of this kind carry user-generated content.
    pub fn contains_ugc(&self) -> (r: bool)
        ensures
            r == telemetry_event_contains_ugc(*self),
    {
        match self {
            TelemetryEventDiscriminants::BootstrappingSlowContents => true,
            TelemetryEventDiscriminants::CreateProjectPromptSubmitted => false,
            TelemetryEventDiscriminants::CreateProjectPromptSubmittedContent => true,
            _ => false,
        }
    }

    /// When events of this kind are recorded.
    pub fn enablement_state(&self) -> (r: EnablementState)
        ensures
            r@ == telemetry_event_enablement(*self),
    {
        match self {
            TelemetryEventDiscriminants::BlockCompletedOnDogfoodOnly => on_no_channel(),
            TelemetryEventDiscriminants::ToggleShowBlockDividers => EnablementState::Flag(FeatureFlag::MinimalistUI),
            TelemetryEventDiscriminants::PtyThroughput => EnablementState::Flag(FeatureFlag::RecordPtyThroughput),
            TelemetryEventDiscriminants::JoinedSharedSession => EnablementState::Flag(FeatureFlag::ViewingSharedSessions),
            TelemetryEventDiscriminants::SharedSessionModalUpgradePressed => EnablementState::Flag(FeatureFlag::CreatingSharedSessions),
            TelemetryEventDiscriminants::FileTreeToggled => EnablementState::Flag(FeatureFlag::FileTree),
            TelemetryEventDiscriminants::FileTreeItemAttachedAsContext => EnablementState::Flag(FeatureFlag::FileTree),
            TelemetryEventDiscriminants::CodeSelectionAddedAsContext => on_no_channel(),
            TelemetryEventDiscriminants::FileTreeItemCreated => EnablementState::Flag(FeatureFlag::FileTree),
            TelemetryEventDiscriminants::ActiveIndexedReposChanged => EnablementState::Flag(FeatureFlag::FullSourceCodeEmbedding),
            TelemetryEventDiscriminants::ToggleNaturalLanguageAutosuggestionsSetting => on_no_channel(),
            TelemetryEventDiscriminants::ToggleSharedBlockTitleGenerationSetting => EnablementState::Flag(FeatureFlag::SharedBlockTitleGeneration),
            TelemetryEventDiscriminants::ToggleGitOperationsAutogenSetting => EnablementState::Flag(FeatureFlag::GitOperationsInCodeReview),
            TelemetryEventDiscriminants::MemoryUsageStats => on_no_channel(),
            TelemetryEventDiscriminants::ToggleWorkspaceDecorationVisibility => EnablementState::Flag(FeatureFlag::FullScreenZenMode),
            TelemetryEventDiscriminants::AddTabWithShell => EnablementState::Flag(FeatureFlag::ShellSelector),
            TelemetryEventDiscriminants::ToggleLigatureRendering => EnablementState::Flag(FeatureFlag::Ligatures),
            TelemetryEventDiscriminants::RepoOutlineConstructionSuccess => on_no_channel(),
            TelemetryEventDiscriminants::RepoOutlineConstructionFailed => on_no_channel(),
            TelemetryEventDiscriminants::KnowledgePaneOpened => EnablementState::Flag(FeatureFlag::AIRules),
            TelemetryEventDiscriminants::AIExecutionProfileCreated => EnablementState::Flag(FeatureFlag::MultiProfile),
            TelemetryEventDiscriminants::AIExecutionProfileDeleted => EnablementState::Flag(FeatureFlag::MultiProfile),
            TelemetryEventDiscriminants::AIExecutionProfileSettingUpdated => EnablementState::Flag(FeatureFlag::MultiProfile),
            TelemetryEventDiscriminants::AIExecutionProfileAddedToAllowlist => EnablementState::Flag(FeatureFlag::MultiProfile),
            TelemetryEventDiscriminants::AIExecutionProfileAddedToDenylist => EnablementState::Flag(FeatureFlag::MultiProfile),
            TelemetryEventDiscriminants::AIExecutionProfileRemovedFromAllowlist => EnablementState::Flag(FeatureFlag::MultiProfile),
            TelemetryEventDiscriminants::AIExecutionProfileRemovedFromDenylist => EnablementState::Flag(FeatureFlag::MultiProfile),
            TelemetryEventDiscriminants::AIExecutionProfileModelSelected => EnablementState::Flag(FeatureFlag::MultiProfile),
            TelemetryEventDiscriminants::AIExecutionProfileContextWindowSelected => EnablementState::Flag(FeatureFlag::MultiProfile),
            TelemetryEventDiscriminants::CreateProjectPromptSubmitted => EnablementState::Flag(FeatureFlag::GetStartedTab),
            TelemetryEventDiscriminants::CreateProjectPromptSubmittedContent => EnablementState::Flag(FeatureFlag::GetStartedTab),
            TelemetryEventDiscriminants::CloneRepoPromptSubmitted => EnablementState::Flag(FeatureFlag::GetStartedTab),
            TelemetryEventDiscriminants::GetStartedSkipToTerminal => EnablementState::Flag(FeatureFlag::GetStartedTab),
            TelemetryEventDiscriminants::QueuedPromptPanelCollapseToggled => EnablementState::Flag(FeatureFlag::QueueSlashCommand),
            _ => EnablementState::Always,
        }
    }

    /// The name events of this kind are reported under.
    pub fn name(&self) -> (r: &'static str)
        ensures
            r@ == telemetry_event_name(*self),
    {
        match self {
            TelemetryEventDiscriminants::AutosuggestionInserted => "Autosuggestion Inserted",
            TelemetryEventDiscriminants::BlockCompleted => "Block Creation",
            TelemetryEventDiscriminants::BlockCompletedOnDogfoodOnly => "Block Completed (dogfood only)",
            TelemetryEventDiscriminants::BackgroundBlockStarted => "Background Block Started",
            TelemetryEventDiscriminants::BaselineCommandLatency => "BaselineCommand Latency",
            TelemetryEventDiscriminants::SessionCreation => "Tab Creation",
            TelemetryEventDiscriminants::Login => "Logged in to native app",
            TelemetryEventDiscriminants::OpenSuggestionsMenu => "Open Suggestions Menu",
            TelemetryEventDiscriminants::ConfirmSuggestion => "Confirm Suggestion",
            TelemetryEventDiscriminants::OpenContextMenu => "Open Context Menu",
            TelemetryEventDiscriminants::ContextMenuCopy => "Context Menu Copy",
            TelemetryEventDiscriminants::ContextMenuOpenShareModal => "Context Menu: Initiate Block Sharing",
            TelemetryEventDiscriminants::ContextMenuFindWithinBlocks => "Context Menu: Find Within Blocks",
            TelemetryEventDiscriminants::ContextMenuCopyPrompt => "Context Menu Copy Prompt",
            TelemetryEventDiscriminants::ContextMenuToggleGitPromptDirtyIndicator => "Context Menu Toggle Git Prompt Dirty Indicator",
            TelemetryEventDiscriminants::ContextMenuInsertSelectedText => "Context Menu Insert Selected Text into Input",
            TelemetryEventDiscriminants::ContextMenuCopySelectedText => "Context Menu Copy Selected Text",
            TelemetryEventDiscriminants::OpenPromptEditor => "Prompt Editor Opened",
            TelemetryEventDiscriminants::PromptEdited => "Prompt Edited",
            TelemetryEventDiscriminants::ReinputCommands => "Context Menu: Reinput Commands",
            TelemetryEventDiscriminants::JumpToPreviousCommand => "Jumped to Previous Command",
            TelemetryEventDiscriminants::BlockSelection => "Block Selection",
            TelemetryEventDiscriminants::BootstrappingSlow => "Bootstrapping Slow",
            TelemetryEventDiscriminants::BootstrappingSlowContents => "Bootstrap Slow Contents",
            TelemetryEventDiscriminants::SessionAbandonedBeforeBootstrap => "Session Abandoned Before Bootstrap",
            TelemetryEventDiscriminants::BootstrappingSucceeded => "Bootstrapping Succeeded",
            TelemetryEventDiscriminants::TabSingleResultAutocompletion => "Tab Single Result Autocompletion",
            TelemetryEventDiscriminants::EditorUnhandledModifierKey => "Unhandled Editor Modifier Key",
            TelemetryEventDiscriminants::CopyInviteLink => "Copy Invite Link",
            TelemetryEventDiscriminants::OpenThemeChooser => "Open Theme Chooser",
            TelemetryEventDiscriminants::ThemeSelection => "Select Theme",
            TelemetryEventDiscriminants::AppIconSelection => "Select App Icon",
            TelemetryEventDiscriminants::CursorDisplayType => "Select Cursor Type",
            TelemetryEventDiscriminants::OpenThemeCreatorModal => "Open Theme Creator Modal",
            TelemetryEventDiscriminants::CreateCustomTheme => "Create Custom Theme",
            TelemetryEventDiscriminants::DeleteCustomTheme => "Delete Custom Theme",
            TelemetryEventDiscriminants::SplitPane => "Split Pane",
            TelemetryEventDiscriminants::UnableToAutoUpdateToNewVersion => "Unable to Update To New Version",
            TelemetryEventDiscriminants::AutoupdateRelaunchAttempt => "Attempting to Relaunch for Update",
            TelemetryEventDiscriminants::SkipOnboardingSurvey => "Skip Onboarding Survey",
            TelemetryEventDiscriminants::ToggleRestoreSession => "Toggle Restore Session",
            TelemetryEventDiscriminants::DatabaseStartUpError => "Database Startup Error",
            TelemetryEventDiscriminants::DatabaseReadError => "Database Read Error",
            TelemetryEventDiscriminants::DatabaseWriteError => "Database Write Error",
            TelemetryEventDiscriminants::AppStartup => "App Startup",
            TelemetryEventDiscriminants::LoggedOutStartup => "Logged-out App Startup",
            TelemetryEventDiscriminants::DownloadSource => "App Download Source",
            TelemetryEventDiscriminants::SSHBootstrapAttempt => "SSH Bootstrap Attempt",
            TelemetryEventDiscriminants::SSHControlMasterError => "SSH ControlMaster Error",
            TelemetryEventDiscriminants::KeybindingChanged => "Keybinding Changed",
            TelemetryEventDiscriminants::KeybindingResetToDefault => "Keybinding Reset to Default",
            TelemetryEventDiscriminants::KeybindingRemoved => "Keybinding Removed",
            TelemetryEventDiscriminants::FeaturesPageAction => "Features Page Action",
            TelemetryEventDiscriminants::OpenWorkflowSearch => "Open Workflows Search",
            TelemetryEventDiscriminants::OpenQuakeModeWindow => "Open Quake Mode Window",
            TelemetryEventDiscriminants::OpenWelcomeTips => "Open Welcome Tips",
            TelemetryEventDiscriminants::CompleteWelcomeTipFeature => "Complete Welcome Tip",
            TelemetryEventDiscriminants::DismissWelcomeTips => "Dismiss Welcome Tips",
            TelemetryEventDiscriminants::ShowNotificationsDiscoveryBanner => "ShowNotificationsDiscoveryBanner",
            TelemetryEventDiscriminants::NotificationsDiscoveryBannerAction => "Notifications Discovery Banner Action",
            TelemetryEventDiscriminants::ShowNotificationsErrorBanner => "ShowNotificationsErrorBanner",
            TelemetryEventDiscriminants::NotificationsErrorBannerAction => "Notifications Error Banner Action",
            TelemetryEventDiscriminants::NotificationPermissionsRequested => "Notification Permissions Requested",
            TelemetryEventDiscriminants::NotificationsRequestPermissionsOutcome => "Notification Request Permissions Outcome",
            TelemetryEventDiscriminants::NotificationFailedToSend => "Notification Failed to Send",
            TelemetryEventDiscriminants::NotificationClicked => "Notification Clicked",
            TelemetryEventDiscriminants::ToggleFindOption => "Find Option Toggled",
            TelemetryEventDiscriminants::SignUpButtonClicked => "Sign Up Button Clicked in App",
            TelemetryEventDiscriminants::LoginButtonClicked => "Log In Button Clicked in App",
            TelemetryEventDiscriminants::LoginLaterButtonClicked => "Login Later Button Clicked",
            TelemetryEventDiscriminants::LoginLaterConfirmationButtonClicked => "Login Later Confirmation Button Clicked",
            TelemetryEventDiscriminants::OpenNewSessionFromFilePath => "New Session From Directory",
            TelemetryEventDiscriminants::OpenTeamFromURI => "Open Team from URI",
            TelemetryEventDiscriminants::SelectNavigationPaletteItem => "Select Navigation Palette Item",
            TelemetryEventDiscriminants::SelectCommandPaletteOption => "Select Command Palette Option",
            TelemetryEventDiscriminants::PaletteSearchOpened => "Open Palette",
            TelemetryEventDiscriminants::PaletteSearchResultAccepted => "Command Palette Search Accepted",
            TelemetryEventDiscriminants::PaletteSearchExited => "Command Palette Search Exited",
            TelemetryEventDiscriminants::AuthCommonQuestionClicked => "Auth Common Question Clicked in App",
            TelemetryEventDiscriminants::AuthToggleFAQ => "Auth: Toggle Common Questions",
            TelemetryEventDiscriminants::OpenAuthPrivacySettings => "Auth: Open Privacy Settings Overlay",
            TelemetryEventDiscriminants::TabRenamed => "Tab Renamed",
            TelemetryEventDiscriminants::MoveActiveTab => "Move Active Tab",
            TelemetryEventDiscriminants::MoveTab => "Move Tab",
            TelemetryEventDiscriminants::DragAndDropTab => "Drag and Drop Tab",
            TelemetryEventDiscriminants::DragAndDropTabGroup => "Drag and Drop Tab Group",
            TelemetryEventDiscriminants::TabOperations => "Tab Operations",
            TelemetryEventDiscriminants::EditedInputBeforePrecmd => "Edited Input Before Precmd",
            TelemetryEventDiscriminants::TriedToExecuteBeforePrecmd => "Tried to Execute Before Precmd",
            TelemetryEventDiscriminants::ThinStrokesSettingChanged => "Thin Strokes Setting Changed",
            TelemetryEventDiscriminants::BookmarkBlockToggled => "Toggled Bookmark Block",
            TelemetryEventDiscriminants::JumpToBookmark => "Jumped to Bookmark Block",
            TelemetryEventDiscriminants::JumpToBottomofBlockButtonClicked => "Jumped to Bottom of Block Button Clicked",
            TelemetryEventDiscriminants::ToggleJumpToBottomofBlockButton => "Toggle Jump to Bottom of Block Button",
            TelemetryEventDiscriminants::ToggleShowBlockDividers => "Toggle Show Block Dividers",
            TelemetryEventDiscriminants::OpenLink => "Opened Link",
            TelemetryEventDiscriminants::OpenChangelogLink => "Opened Changelog Link",
            TelemetryEventDiscriminants::ShowInFileExplorer => "Showed File in File Explorer",
            TelemetryEventDiscriminants::CommandXRayTriggered => "Triggered Command XRay",
            TelemetryEventDiscriminants::OpenLaunchConfigSaveModal => "Open Save Config Modal",
            TelemetryEventDiscriminants::SaveLaunchConfig => "Save Launch Config",
            TelemetryEventDiscriminants::OpenLaunchConfigFile => "Open Launch Config File",
            TelemetryEventDiscriminants::OpenLaunchConfig => "Open Launch Config",
            TelemetryEventDiscriminants::TeamCreated => "Team Created",
            TelemetryEventDiscriminants::TeamJoined => "Team Joined",
            TelemetryEventDiscriminants::TeamLeft => "Team Left",
            TelemetryEventDiscriminants::ToggleSettingsSync => "Toggle Settings Sync",
            TelemetryEventDiscriminants::TeamLinkCopied => "Team Link Copied",
            TelemetryEventDiscriminants::RemovedUserFromTeam => "Removed user from team",
            TelemetryEventDiscriminants::DeletedWorkflow => "Deleted Workflow",
            TelemetryEventDiscriminants::DeletedNotebook => "Deleted Notebook",
            TelemetryEventDiscriminants::ToggleApprovalsModal => "Toggle Approvals Modal",
            TelemetryEventDiscriminants::SendEmailInvites => "Sent email invites",
            TelemetryEventDiscriminants::CommandCorrection => "Command Correction Event",
            TelemetryEventDiscriminants::SetLineHeight => "Set Line Height",
            TelemetryEventDiscriminants::ResourceCenterOpened => "Resource Center Opened",
            TelemetryEventDiscriminants::ResourceCenterTipsCompleted => "Resource Center Tips Completed",
            TelemetryEventDiscriminants::ResourceCenterTipsSkipped => "Resource Center Tips Skipped",
            TelemetryEventDiscriminants::KeybindingsPageOpened => "Resource Center Keybindings Page Opened",
            TelemetryEventDiscriminants::CommandSearchOpened => "Command Search Opened",
            TelemetryEventDiscriminants::CommandSearchExited => "Command Search Exited",
            TelemetryEventDiscriminants::CommandSearchResultAccepted => "Command Search Result Accepted",
            TelemetryEventDiscriminants::CommandSearchFilterChanged => "Command Search Filter Changed",
            TelemetryEventDiscriminants::GlobalSearchOpened => "Global Search Opened",
            TelemetryEventDiscriminants::GlobalSearchQueryStarted => "Global Search Query Started",
            TelemetryEventDiscriminants::AICommandSearchOpened => "AI Command Search opened",
            TelemetryEventDiscriminants::OpenedAltScreenFind => "Opened alt screen find bar",
            TelemetryEventDiscriminants::UserInitiatedClose => "User Initiated Closing Something",
            TelemetryEventDiscriminants::QuitModalShown => "Quit Modal Shown",
            TelemetryEventDiscriminants::QuitModalCancel => "Quit Modal Cancel Pressed",
            TelemetryEventDiscriminants::QuitModalDisabled => "Quit Modal Disabled",
            TelemetryEventDiscriminants::UserInitiatedLogOut => "User Initiated Log Out",
            TelemetryEventDiscriminants::LogOutModalShown => "Log Out Modal Shown",
            TelemetryEventDiscriminants::LogOutModalCancel => "Log Out Modal Cancel Pressed",
            TelemetryEventDiscriminants::SetOpacity => "Set Window Opacity",
            TelemetryEventDiscriminants::SetBlurRadius => "Set Window Blur Radius",
            TelemetryEventDiscriminants::ToggleDimInactivePanes => "Toggle Dim Inactive Panes",
            TelemetryEventDiscriminants::InputModeChanged => "Input Mode Changed",
            TelemetryEventDiscriminants::PtySpawned => "Pty Spawned",
            TelemetryEventDiscriminants::InitialWorkingDirectoryConfigurationChanged => "InitialWorkingDirectoryConfigurationChanged",
            TelemetryEventDiscriminants::ToggleFocusPaneOnHover => "Toggle Focus Pane On Hover",
            TelemetryEventDiscriminants::OpenInputContextMenu => "OpenInputBoxContextMenu",
            TelemetryEventDiscriminants::InputCutSelectedText => "InputBoxCutSelectedText",
            TelemetryEventDiscriminants::InputCopySelectedText => "InputBoxCopySelectedText",
            TelemetryEventDiscriminants::InputSelectAll => "InputBoxSelectAll",
            TelemetryEventDiscriminants::InputPaste => "InputBoxPaste",
            TelemetryEventDiscriminants::InputCommandSearch => "InputBoxCommandSearch",
            TelemetryEventDiscriminants::InputAICommandSearch => "InputBoxAICommandSearch",
            TelemetryEventDiscriminants::SaveAsWorkflowModal => "Opened Save As Workflow Modal",
            TelemetryEventDiscriminants::ExperimentTriggered => "experiments.client.enroll_client",
            TelemetryEventDiscriminants::ToggleSyncAllPanesInAllTabs => "Toggle Sync Inputs Across All Panes in All Tabs",
            TelemetryEventDiscriminants::ToggleSyncAllPanesInTab => "Toggle Sync Inputs Across All Panes in Current Tab",
            TelemetryEventDiscriminants::ToggleSameLinePrompt => "Toggle Same Line Prompt",
            TelemetryEventDiscriminants::ToggleNewWindowsAtCustomSize => "Toggle New Windows at Custom Size",
            TelemetryEventDiscriminants::SetNewWindowsAtCustomSize => "Set New Windows at Custom Size",
            TelemetryEventDiscriminants::DisableInputSync => "Disable Input Sync Inputs",
            TelemetryEventDiscriminants::ToggleTabIndicators => "Toggle Tab Indicators",
            TelemetryEventDiscriminants::TogglePreserveActiveTabColor => "Toggle Preserve Active Tab Color",
            TelemetryEventDiscriminants::ShowSubshellBanner => "Show Subshell Banner",
            TelemetryEventDiscriminants::DeclineSubshellBootstrap => "Decline Subshell Bootstrap",
            TelemetryEventDiscriminants::TriggerSubshellBootstrap => "Trigger Subshell Bootstrap",
            TelemetryEventDiscriminants::AddDenylistedSubshellCommand => "Add Denylisted Subshell Command",
            TelemetryEventDiscriminants::RemoveDenylistedSubshellCommand => "Remove Denylisted Subshell Command",
            TelemetryEventDiscriminants::AddAddedSubshellCommand => "Add Added Subshell Command",
            TelemetryEventDiscriminants::RemoveAddedSubshellCommand => "Remove Added Subshell Command",
            TelemetryEventDiscriminants::ReceivedSubshellRcFileDcs => "Received Subshell RC File DCS",
            TelemetryEventDiscriminants::AddDenylistedSshTmuxWrapperHost => "Add Denylisted SSH Tmux Wrapper Host",
            TelemetryEventDiscriminants::RemoveDenylistedSshTmuxWrapperHost => "Remove Denylisted SSH Tmux Wrapper Host",
            TelemetryEventDiscriminants::ToggleSshTmuxWrapper => "Toggle SSH Tmux Wrapper",
            TelemetryEventDiscriminants::ToggleSshRiftification => "Toggle SSH Riftification",
            TelemetryEventDiscriminants::SetSshExtensionInstallMode => "Set SSH Extension Install Mode",
            TelemetryEventDiscriminants::SshInteractiveSessionDetected => "SSH Interactive Session Detected",
            TelemetryEventDiscriminants::SshTmuxRiftifyBannerDisplayed => "Show Riftify SSH Banner",
            TelemetryEventDiscriminants::SshTmuxRiftifyBlockAccepted => "SSH Tmux Riftify Block Accepted",
            TelemetryEventDiscriminants::SshTmuxRiftifyBlockDismissed => "SSH Tmux Riftify Block Dismissed",
            TelemetryEventDiscriminants::RiftifyFooterShown => "Riftify Footer Shown",
            TelemetryEventDiscriminants::RiftifyFooterAcceptedRiftify => "Riftify Footer Accepted Riftify",
            TelemetryEventDiscriminants::SshTmuxRiftificationSuccess => "SSH Tmux Riftification Succeeded",
            TelemetryEventDiscriminants::SshTmuxRiftificationErrorBlock => "SSH Tmux Riftification Error Block",
            TelemetryEventDiscriminants::SshInstallTmuxBlockDisplayed => "SSH Install Tmux Block Displayed",
            TelemetryEventDiscriminants::SshInstallTmuxBlockAccepted => "SSH Install Tmux Block Accepted",
            TelemetryEventDiscriminants::SshInstallTmuxBlockDismissed => "SSH Install Tmux Block Dismissed",
            TelemetryEventDiscriminants::ShowAliasExpansionBanner => "Show Alias Expansion Banner",
            TelemetryEventDiscriminants::EnableAliasExpansionFromBanner => "Enable Alias Expansion From Banner",
            TelemetryEventDiscriminants::DismissAliasExpansionBanner => "Dismiss Alias Expansion Banner",
            TelemetryEventDiscriminants::ShowVimKeybindingsBanner => "Vim Keybindings Banner Displayed",
            TelemetryEventDiscriminants::EnableVimKeybindingsFromBanner => "Vim Keybindings Enabled from Banner",
            TelemetryEventDiscriminants::DismissVimKeybindingsBanner => "Vim Keybindings Banner Dismissed",
            TelemetryEventDiscriminants::InitiateReauth => "Initiate Reauth",
            TelemetryEventDiscriminants::InitiateAnonymousUserSignup => "Anonymous User Initiated Signup",
            TelemetryEventDiscriminants::AnonymousUserExpirationLockout => "Anonymous User Expiration Lockout",
            TelemetryEventDiscriminants::AnonymousUserLinkedFromBrowser => "Anonymous User Linked from Browser",
            TelemetryEventDiscriminants::AnonymousUserAttemptLoginGatedFeature => "Anonymous User Attempted Login-Gated Feature",
            TelemetryEventDiscriminants::AnonymousUserHitCloudObjectLimit => "Anonymous User Hit Cloud Object Limit",
            TelemetryEventDiscriminants::NeedsReauth => "Needs Reauth",
            TelemetryEventDiscriminants::DriveOpened => "Rift Drive Opened",
            TelemetryEventDiscriminants::ToggleSecretRedaction => "Toggle Secret Redaction",
            TelemetryEventDiscriminants::CustomSecretRegexAdded => "Custom Secret Regex Added",
            TelemetryEventDiscriminants::ToggleObfuscateSecret => "Toggle Obfuscate Secret",
            TelemetryEventDiscriminants::CopySecret => "Copy Obfuscated Secret",
            TelemetryEventDiscriminants::AutoGenerateMetadataSuccess => "Generate Metadata For Workflow Success",
            TelemetryEventDiscriminants::AutoGenerateMetadataError => "Generate Metadata For Workflow Error",
            TelemetryEventDiscriminants::UndoClose => "Undo Close",
            TelemetryEventDiscriminants::PtyThroughput => "PTY Throughput",
            TelemetryEventDiscriminants::DriveSharingOnboardingBlockShown => "Rift Drive Sharing onboarding block shown",
            TelemetryEventDiscriminants::CommandFileRun => "Command File Run",
            TelemetryEventDiscriminants::PageUpDownInEditorPressed => "Page Up/Down In Editor Pressed",
            TelemetryEventDiscriminants::JoinedSharedSession => "Joined Shared Session",
            TelemetryEventDiscriminants::SharedSessionModalUpgradePressed => "Shared Session Modal Upgrade Pressed",
            TelemetryEventDiscriminants::SharerCancelledGrantRole => "Sharer Cancelled Grant Role",
            TelemetryEventDiscriminants::SharerGrantModalDontShowAgain => "Don't Show Sharer Grant Modal Again",
            TelemetryEventDiscriminants::JumpToSharedSessionParticipant => "Jumped to Shared Session Participant",
            TelemetryEventDiscriminants::UnsupportedShell => "Unsupported Shell",
            TelemetryEventDiscriminants::LogOut => "Log Out",
            TelemetryEventDiscriminants::SettingsImportInitiated => "Settings Import Initiated",
            TelemetryEventDiscriminants::InviteTeammates => "Invited Teammates",
            TelemetryEventDiscriminants::OpenAndRiftifyDockerSubshell => "OpenAndRiftifyDockerSubshell",
            TelemetryEventDiscriminants::UpdateBlockFilterQuery => "Update Block Filter Query",
            TelemetryEventDiscriminants::UpdateBlockFilterQueryContextLines => "Update Block Filter Query With Context Lines",
            TelemetryEventDiscriminants::ToggleBlockFilterQuery => "Toggle Block Filter Query",
            TelemetryEventDiscriminants::ToggleBlockFilterCaseSensitivity => "Toggle Block Filter Case Sensitivity",
            TelemetryEventDiscriminants::ToggleBlockFilterRegex => "Toggle Block Filter Regex",
            TelemetryEventDiscriminants::ToggleBlockFilterInvert => "Toggle Block Filter Invert",
            TelemetryEventDiscriminants::BlockFilterToolbeltButtonClicked => "Block Filter Toolbelt Button Clicked",
            TelemetryEventDiscriminants::ToggleSnackbarInActivePane => "Toggle Sticky Command Header in Active Pane",
            TelemetryEventDiscriminants::PaneDragInitiated => "Pane Drag Inititiated",
            TelemetryEventDiscriminants::PaneDropped => "Pane Drag Ended",
            TelemetryEventDiscriminants::ObjectLinkCopied => "Object Link Copied",
            TelemetryEventDiscriminants::FileTreeToggled => "File Tree Toggled",
            TelemetryEventDiscriminants::FileTreeItemAttachedAsContext => "FileTree.AttachedAsContext",
            TelemetryEventDiscriminants::CodeSelectionAddedAsContext => "CodeView.SelectionAddedAsContext",
            TelemetryEventDiscriminants::FileTreeItemCreated => "FileTree.ItemCreated",
            TelemetryEventDiscriminants::PromptSuggestionShown => "Agent Mode Query Suggestions Banner Shown",
            TelemetryEventDiscriminants::SuggestedCodeDiffFailed => "Suggested Code Diff Failed",
            TelemetryEventDiscriminants::PromptSuggestionAccepted => "Agent Mode Query Suggestion Accepted",
            TelemetryEventDiscriminants::StaticPromptSuggestionsBannerShown => "Static Prompt Suggestions Banner Shown",
            TelemetryEventDiscriminants::StaticPromptSuggestionAccepted => "Static Prompt Suggestion Accepted",
            TelemetryEventDiscriminants::ToggleIntelligentAutosuggestionsSetting => "Toggle Intelligent Autosuggestions Setting",
            TelemetryEventDiscriminants::ToggleGlobalAI => "Toggle Global AI Enablement",
            TelemetryEventDiscriminants::ToggleCodebaseContext => "Toggle Agent Mode Codebase Context",
            TelemetryEventDiscriminants::ToggleAutoIndexing => "Toggle Codebase Context Autoindexing",
            TelemetryEventDiscriminants::ActiveIndexedReposChanged => "Active Indexed Repos Changed",
            TelemetryEventDiscriminants::ToggleActiveAI => "Toggle Active AI Enablement",
            TelemetryEventDiscriminants::TogglePromptSuggestionsSetting => "Toggle Agent Mode Query Suggestions Setting",
            TelemetryEventDiscriminants::ToggleCodeSuggestionsSetting => "Toggle Code Suggestions Setting",
            TelemetryEventDiscriminants::ToggleNaturalLanguageAutosuggestionsSetting => "Toggle Natural Language Autosuggestions Setting",
            TelemetryEventDiscriminants::ToggleSharedBlockTitleGenerationSetting => "Toggle SharedBlock Title Generation",
            TelemetryEventDiscriminants::ToggleGitOperationsAutogenSetting => "Toggle Git Operations Autogen Setting",
            TelemetryEventDiscriminants::ToggleVoiceInputSetting => "Toggle Voice Input Setting",
            TelemetryEventDiscriminants::TierLimitHit => "Tier Limit Hit",
            TelemetryEventDiscriminants::SharedObjectLimitHitBannerViewPlansButtonClicked => "Shared Object Limit Hit Banner View Plans Button Clicked",
            TelemetryEventDiscriminants::ResourceUsageStats => "perf_metrics.resource_usage",
            TelemetryEventDiscriminants::MemoryUsageStats => "perf_metrics.memory_usage",
            TelemetryEventDiscriminants::MemoryUsageHigh => "perf_metrics.memory_usage_high",
            TelemetryEventDiscriminants::CompletedSettingsImport => "Completed Settings Import",
            TelemetryEventDiscriminants::SettingsImportConfigFocused => "Focused Config in Settings Import",
            TelemetryEventDiscriminants::SettingsImportResetButtonClicked => "Clicked Reset to Defaults Button in Settings Import",
            TelemetryEventDiscriminants::SettingsImportConfigParsed => "Parsed Config in Settings Import",
            TelemetryEventDiscriminants::ITermMultipleHotkeys => "ITerm Profile has Multiple Hotkeys",
            TelemetryEventDiscriminants::UserMenuUpgradeClicked => "User Menu Upgrade Clicked",
            TelemetryEventDiscriminants::ToggleWorkspaceDecorationVisibility => "Toggled Tab Bar Visibility",
            TelemetryEventDiscriminants::UpdateAltScreenPaddingMode => "Updated Alt Screen Padding Mode",
            TelemetryEventDiscriminants::AddTabWithShell => "Add Tab With Shell",
            TelemetryEventDiscriminants::ToggleLigatureRendering => "Toggle Ligature Rendering",
            TelemetryEventDiscriminants::RepoOutlineConstructionSuccess => "Repo Outline Built Successfully",
            TelemetryEventDiscriminants::RepoOutlineConstructionFailed => "Repo Outline Construction Failed",
            TelemetryEventDiscriminants::KnowledgePaneOpened => "Knowledge Pane Opened",
            TelemetryEventDiscriminants::CodePanelsFileOpened => "CodePanels.FileOpened",
            TelemetryEventDiscriminants::PreviewPanePromoted => "Preview Pane Promoted",
            TelemetryEventDiscriminants::WSLRegistryError => "WSL Distribution Registry Error",
            TelemetryEventDiscriminants::AutoupdateUnableToCloseApplications => "Windows Autoupdate: Setup Unable to Close Applications",
            TelemetryEventDiscriminants::AutoupdateFileInUse => "Windows Autoupdate: File In Use Error",
            TelemetryEventDiscriminants::AutoupdateMutexTimeout => "Windows Autoupdate: Mutex Timeout",
            TelemetryEventDiscriminants::AutoupdateForcekillFailed => "Windows Autoupdate: Forcekill Failed",
            TelemetryEventDiscriminants::AutoupdateMinidumpCleanupFailed => "Windows Autoupdate: Minidump Cleanup Failed",
            TelemetryEventDiscriminants::ImageReceived => "Image Received",
            TelemetryEventDiscriminants::GrepToolSucceeded => "AgentMode.Grep.Succeeded",
            TelemetryEventDiscriminants::FileGlobToolSucceeded => "AgentMode.FileGlob.Succeeded",
            TelemetryEventDiscriminants::ShellTerminatedPrematurely => "Shell Terminated Prematurely",
            TelemetryEventDiscriminants::InputUXModeChanged => "Input.InputUXModeChanged",
            TelemetryEventDiscriminants::ContextChipInteracted => "Input.ContextChipInteracted",
            TelemetryEventDiscriminants::TabCloseButtonPositionUpdated => "Update Tab Close Button Position",
            TelemetryEventDiscriminants::AIExecutionProfileCreated => "AI Execution Profile Created",
            TelemetryEventDiscriminants::AIExecutionProfileDeleted => "AI Execution Profile Deleted",
            TelemetryEventDiscriminants::AIExecutionProfileSettingUpdated => "AI Execution Profile: Setting Updated",
            TelemetryEventDiscriminants::AIExecutionProfileAddedToAllowlist => "AI Execution Profile: Added To Allowlist",
            TelemetryEventDiscriminants::AIExecutionProfileAddedToDenylist => "AI Execution Profile: Added To Denylist",
            TelemetryEventDiscriminants::AIExecutionProfileRemovedFromAllowlist => "AI Execution Profile: Removed From Allowlist",
            TelemetryEventDiscriminants::AIExecutionProfileRemovedFromDenylist => "AI Execution Profile: Removed From Denylist",
            TelemetryEventDiscriminants::AIExecutionProfileModelSelected => "AI Execution Profile: Model Selected",
            TelemetryEventDiscriminants::AIExecutionProfileContextWindowSelected => "AI Execution Profile: Context Window Selected",
            TelemetryEventDiscriminants::OpenSlashMenu => "Open Slash Menu",
            TelemetryEventDiscriminants::SlashCommandAccepted => "Slash Command Accepted",
            TelemetryEventDiscriminants::CreateProjectPromptSubmitted => "Create Project Prompt Submitted",
            TelemetryEventDiscriminants::CreateProjectPromptSubmittedContent => "Create Project Prompt Submitted Content",
            TelemetryEventDiscriminants::CloneRepoPromptSubmitted => "Clone Repo Prompt Submitted",
            TelemetryEventDiscriminants::GetStartedSkipToTerminal => "Get Started Skip to Terminal",
            TelemetryEventDiscriminants::RecentMenuItemSelected => "Recent Menu Item Selected",
            TelemetryEventDiscriminants::OpenRepoFolderSubmitted => "Open Repo Folder Submitted",
            TelemetryEventDiscriminants::OutOfCreditsBannerClosed => "revenue.OutOfCreditsBannerClosed",
            TelemetryEventDiscriminants::AutoReloadModalClosed => "revenue.AutoReloadModalClosed",
            TelemetryEventDiscriminants::AutoReloadToggledFromBillingSettings => "revenue.AutoReloadToggledFromBillingSettings",
            TelemetryEventDiscriminants::DetectedIsolationPlatform => "Isolation.DetectedIsolationPlatform",
            TelemetryEventDiscriminants::LinearIssueLinkOpened => "Linear.IssueLinkOpened",
            TelemetryEventDiscriminants::FreeTierLimitHitInterstitialDisplayed => "FreeTierLimitHitInterstitial.Displayed",
            TelemetryEventDiscriminants::FreeTierLimitHitInterstitialUpgradeButtonClicked => "FreeTierLimitHitInterstitial.UpgradeButtonClicked",
            TelemetryEventDiscriminants::FreeTierLimitHitInterstitialClosed => "FreeTierLimitHitInterstitial.Closed",
            TelemetryEventDiscriminants::QueuedPromptPanelCollapseToggled => "QueuedPrompt.PanelCollapseToggled",
        }
    }

    /// The published description of events of this kind.
    pub fn description(&self) -> (r: &'static str)
        ensures
            r@ == telemetry_event_description(*self),
    {
        match self {
            TelemetryEventDiscriminants::AutosuggestionInserted => "Accepted autosuggestion",
            TelemetryEventDiscriminants::BlockCompleted => "Created Block",
            TelemetryEventDiscriminants::BlockCompletedOnDogfoodOnly => "Completed a block, with extra information for dogfood only",
            TelemetryEventDiscriminants::BackgroundBlockStarted => "Rift created a background-output Block (whenever a processes has been backgrounded and yields some output)",
            TelemetryEventDiscriminants::BaselineCommandLatency => "Command execution time",
            TelemetryEventDiscriminants::SessionCreation => "Created a tab",
            TelemetryEventDiscriminants::Login => "Login is successful",
            TelemetryEventDiscriminants::OpenSuggestionsMenu => "Opened a suggestion menus, such as with up arrow or tab",
            TelemetryEventDiscriminants::ConfirmSuggestion => "Accepted tab completion suggestion",
            TelemetryEventDiscriminants::OpenContextMenu => "Opened context menu (such as right clicking, clicking on ellipses in the top right of a Block, etc.)",
            TelemetryEventDiscriminants::ContextMenuCopy => "Clicked \"Copy\" in context menu",
            TelemetryEventDiscriminants::ContextMenuOpenShareModal => "Opened \"Share\" modal via context menu",
            TelemetryEventDiscriminants::ContextMenuFindWithinBlocks => "Clicked \"find within blocks\" in context menu",
            TelemetryEventDiscriminants::ContextMenuCopyPrompt => "Clicked  \"Copy Prompt\" in context menu",
            TelemetryEventDiscriminants::ContextMenuToggleGitPromptDirtyIndicator => "Toggled indicator of dirty git prompt",
            TelemetryEventDiscriminants::ContextMenuInsertSelectedText => "Clicked \"insert into input\" in context menu",
            TelemetryEventDiscriminants::ContextMenuCopySelectedText => "Clicked \"Copy selected text\" in context menu",
            TelemetryEventDiscriminants::OpenPromptEditor => "Opened the prompt editor",
            TelemetryEventDiscriminants::PromptEdited => "Edited the prompt using the built-in prompt editor",
            TelemetryEventDiscriminants::ReinputCommands => "Clicked \"reinput commands\" in context menu",
            TelemetryEventDiscriminants::JumpToPreviousCommand => "Jumped to a previous command",
            TelemetryEventDiscriminants::BlockSelection => "Selected Block",
            TelemetryEventDiscriminants::BootstrappingSlow => "Slow bootstrap on session startup",
            TelemetryEventDiscriminants::BootstrappingSlowContents => "Contents of the bootstrap block if bootstrapping is slow",
            TelemetryEventDiscriminants::SessionAbandonedBeforeBootstrap => "Abandoned session before the bootstrapping completes",
            TelemetryEventDiscriminants::BootstrappingSucceeded => "Successful bootstrap for session",
            TelemetryEventDiscriminants::TabSingleResultAutocompletion => "Accepted tab completion and inserted into Input Editor",
            TelemetryEventDiscriminants::EditorUnhandledModifierKey => "Used modifier keybinding keystroke which is not currently supported",
            TelemetryEventDiscriminants::CopyInviteLink => "Clicked \"Copy Link\" on Referral Modal",
            TelemetryEventDiscriminants::OpenThemeChooser => "Opened theme chooser (list of different themes and visualizations of those themes)",
            TelemetryEventDiscriminants::ThemeSelection => "Selected theme",
            TelemetryEventDiscriminants::AppIconSelection => "Selected app icon",
            TelemetryEventDiscriminants::CursorDisplayType => "Selected cursor type",
            TelemetryEventDiscriminants::OpenThemeCreatorModal => "Opened theme creator modal (modal to create a new theme)",
            TelemetryEventDiscriminants::CreateCustomTheme => "Created a custom theme using the built-in theme creator",
            TelemetryEventDiscriminants::DeleteCustomTheme => "Deleted a custom theme using the built-in theme creator",
            TelemetryEventDiscriminants::SplitPane => "Split tab into multiple panes",
            TelemetryEventDiscriminants::UnableToAutoUpdateToNewVersion => "Update available but not authorized to install",
            TelemetryEventDiscriminants::AutoupdateRelaunchAttempt => "Attempted to relaunch the app after installing an update",
            TelemetryEventDiscriminants::SkipOnboardingSurvey => "Skipped onboarding survey as a whole",
            TelemetryEventDiscriminants::ToggleRestoreSession => "Toggled session restoration (\"Restore windows, tabs, panes, on startup\")",
            TelemetryEventDiscriminants::DatabaseStartUpError => "Failed to initialize sqlite upon startup",
            TelemetryEventDiscriminants::DatabaseReadError => "Database read error when trying to get app state for session restoration",
            TelemetryEventDiscriminants::DatabaseWriteError => "Database write error when trying to write app state for session restoration",
            TelemetryEventDiscriminants::AppStartup => "App is launched",
            TelemetryEventDiscriminants::LoggedOutStartup => "Started Rift in the logged-out / signed-out state",
            TelemetryEventDiscriminants::DownloadSource => "Whether the Rift was installed from the home page or through homebrew",
            TelemetryEventDiscriminants::SSHBootstrapAttempt => "Attempted bootstrapping for an SSH session",
            TelemetryEventDiscriminants::SSHControlMasterError => "Encountered a ControlMaster error during an SSH session",
            TelemetryEventDiscriminants::KeybindingChanged => "Edited a custom keybinding",
            TelemetryEventDiscriminants::KeybindingResetToDefault => "Reset a custom keybinding to its default",
            TelemetryEventDiscriminants::KeybindingRemoved => "Removed / cleared a keybinding",
            TelemetryEventDiscriminants::FeaturesPageAction => "Changed settings in Features Page",
            TelemetryEventDiscriminants::OpenWorkflowSearch => "Opened workflows search in command search pane",
            TelemetryEventDiscriminants::OpenQuakeModeWindow => "Toggled quake mode window when previously hidden or closed",
            TelemetryEventDiscriminants::OpenWelcomeTips => "Opened welcome tips in app",
            TelemetryEventDiscriminants::CompleteWelcomeTipFeature => "Completed all welcome tips items",
            TelemetryEventDiscriminants::DismissWelcomeTips => "Dismissed Welcome tips",
            TelemetryEventDiscriminants::ShowNotificationsDiscoveryBanner => "Showed notifications discovery banner in the block list",
            TelemetryEventDiscriminants::NotificationsDiscoveryBannerAction => "Showed banner introducing the notifications feature",
            TelemetryEventDiscriminants::ShowNotificationsErrorBanner => "Showed error banner for notifications feature",
            TelemetryEventDiscriminants::NotificationsErrorBannerAction => "Showed error banner for notifications feature",
            TelemetryEventDiscriminants::NotificationPermissionsRequested => "Requested permission for desktop notification permissions",
            TelemetryEventDiscriminants::NotificationsRequestPermissionsOutcome => "Recorded outcome of attempting to request desktop notification permissions",
            TelemetryEventDiscriminants::NotificationFailedToSend => "Failed to send desktop notification",
            TelemetryEventDiscriminants::NotificationClicked => "Clicked desktop notification sent from Rift",
            TelemetryEventDiscriminants::ToggleFindOption => "Changed settings in Find Toggle",
            TelemetryEventDiscriminants::SignUpButtonClicked => "Clicked \"Sign Up\" button",
            TelemetryEventDiscriminants::LoginButtonClicked => "Clicked on \"Log in\" button",
            TelemetryEventDiscriminants::LoginLaterButtonClicked => "Clicked \"Login later\" button",
            TelemetryEventDiscriminants::LoginLaterConfirmationButtonClicked => "Clicked \"Yes, skip login\" confirmation button",
            TelemetryEventDiscriminants::OpenNewSessionFromFilePath => "Dragged a file, folder, etc. into Rift to start a session",
            TelemetryEventDiscriminants::OpenTeamFromURI => "Showed settings view of their newly joined team within the app",
            TelemetryEventDiscriminants::SelectNavigationPaletteItem => "Selected session from the Session Navigation Palette (search across panes, tabs, and windows)",
            TelemetryEventDiscriminants::SelectCommandPaletteOption => "Selected option from command palette (i.e. CMD-P)",
            TelemetryEventDiscriminants::PaletteSearchOpened => "Opened the palette",
            TelemetryEventDiscriminants::PaletteSearchResultAccepted => "Accepted a command palette search result",
            TelemetryEventDiscriminants::PaletteSearchExited => "Exited command palette search without accepting a result",
            TelemetryEventDiscriminants::AuthCommonQuestionClicked => "Clicked on \"Common Question\" when logging in",
            TelemetryEventDiscriminants::AuthToggleFAQ => "Toggled FAQ Page when logging in",
            TelemetryEventDiscriminants::OpenAuthPrivacySettings => "Privacy settings are open during sign-in",
            TelemetryEventDiscriminants::TabRenamed => "Changed tab title",
            TelemetryEventDiscriminants::MoveActiveTab => "Move active tab left or right",
            TelemetryEventDiscriminants::MoveTab => "Move tab left or right",
            TelemetryEventDiscriminants::DragAndDropTab => "Tab dragged and dropped",
            TelemetryEventDiscriminants::DragAndDropTabGroup => "Tab group dragged and dropped",
            TelemetryEventDiscriminants::TabOperations => "Took operation on a tab: change color, close tab, close adjacent tabs, etc.",
            TelemetryEventDiscriminants::EditedInputBeforePrecmd => "Input edited before precmd hook completes",
            TelemetryEventDiscriminants::TriedToExecuteBeforePrecmd => "Attempted to execute command before precmd, a shell stage that has metadata on a command such as ssh, prompt info, etc.",
            TelemetryEventDiscriminants::ThinStrokesSettingChanged => "Changed thin strokes setting in settings -> Appearance",
            TelemetryEventDiscriminants::BookmarkBlockToggled => "Bookmarked or unbookmarked Block",
            TelemetryEventDiscriminants::JumpToBookmark => "Jumped to bookmarked Block",
            TelemetryEventDiscriminants::JumpToBottomofBlockButtonClicked => "Used the button to jump to the bottom of a Block",
            TelemetryEventDiscriminants::ToggleJumpToBottomofBlockButton => "Enabled or disabled the Jump to Bottom of Block Button",
            TelemetryEventDiscriminants::ToggleShowBlockDividers => "Enabled or disabled the Show Block Dividers Button",
            TelemetryEventDiscriminants::OpenLink => "Opened a highlighted link within input or output",
            TelemetryEventDiscriminants::OpenChangelogLink => "Opened the changelog link within the App",
            TelemetryEventDiscriminants::ShowInFileExplorer => "Opened a file in Finder by using \"Show in Finder\"",
            TelemetryEventDiscriminants::CommandXRayTriggered => "Triggered Command X-Ray (hovering over a command for explanation)",
            TelemetryEventDiscriminants::OpenLaunchConfigSaveModal => "Opened save launch configuration modal",
            TelemetryEventDiscriminants::SaveLaunchConfig => "Saved current launch configuration of windows, tabs, and panes",
            TelemetryEventDiscriminants::OpenLaunchConfigFile => "Opened the launch config YAML file from modal once saved successfully",
            TelemetryEventDiscriminants::OpenLaunchConfig => "Opened launch config for a session",
            TelemetryEventDiscriminants::TeamCreated => "Created a Rift Drive team",
            TelemetryEventDiscriminants::TeamJoined => "Joined a Rift Drive team",
            TelemetryEventDiscriminants::TeamLeft => "Left a Rift Drive team",
            TelemetryEventDiscriminants::ToggleSettingsSync => "Toggle Settings Sync",
            TelemetryEventDiscriminants::TeamLinkCopied => "Copied a Rift Drive team link",
            TelemetryEventDiscriminants::RemovedUserFromTeam => "Remove user from Rift Drive team",
            TelemetryEventDiscriminants::DeletedWorkflow => "Deleted workflow from Rift Drive team",
            TelemetryEventDiscriminants::DeletedNotebook => "Deleted notebook from Rift Drive team",
            TelemetryEventDiscriminants::ToggleApprovalsModal => "Opened or closed teams modal",
            TelemetryEventDiscriminants::SendEmailInvites => "Sent email invites for Rift Drive team",
            TelemetryEventDiscriminants::CommandCorrection => "Accepted command correction",
            TelemetryEventDiscriminants::SetLineHeight => "Set line height through Settings -> Appearance",
            TelemetryEventDiscriminants::ResourceCenterOpened => "Opened Resource Center pane",
            TelemetryEventDiscriminants::ResourceCenterTipsCompleted => "Completed resource center tips",
            TelemetryEventDiscriminants::ResourceCenterTipsSkipped => "Skipped welcome tips for new users",
            TelemetryEventDiscriminants::KeybindingsPageOpened => "Opened the keybinding page within the resource center",
            TelemetryEventDiscriminants::CommandSearchOpened => "Opened command search (universal search panel to search)",
            TelemetryEventDiscriminants::CommandSearchExited => "Exited command search (universal search panel to search) without accepting a result",
            TelemetryEventDiscriminants::CommandSearchResultAccepted => "Accepted command search result",
            TelemetryEventDiscriminants::CommandSearchFilterChanged => "Changed command search filter",
            TelemetryEventDiscriminants::GlobalSearchOpened => "Opened the global search view",
            TelemetryEventDiscriminants::GlobalSearchQueryStarted => "Started a global search (rift_ripgrep) search",
            TelemetryEventDiscriminants::AICommandSearchOpened => "Opened the modal for AI Command Search, where you can use natural language to search for commands",
            TelemetryEventDiscriminants::OpenedAltScreenFind => "Opened the Find bar in the Alt Screen",
            TelemetryEventDiscriminants::UserInitiatedClose => "Attempted to either quit the app or close a window",
            TelemetryEventDiscriminants::QuitModalShown => "Showed an alert modal to warn the user about closing the app/window with a running process",
            TelemetryEventDiscriminants::QuitModalCancel => "`Cancel` button on the alert modal was pressed",
            TelemetryEventDiscriminants::QuitModalDisabled => "The quit modal dialog has been disabled and will not popup when a user closes Rift while a session is running",
            TelemetryEventDiscriminants::UserInitiatedLogOut => "Confirms a user has explicitly logged out of the application",
            TelemetryEventDiscriminants::LogOutModalShown => "When the log out modal is displayed",
            TelemetryEventDiscriminants::LogOutModalCancel => "Escaped the log out flow by canceling the log out modal",
            TelemetryEventDiscriminants::SetOpacity => "Changed the opacity (window transparency) from the `Settings -> Appearance` dialog",
            TelemetryEventDiscriminants::SetBlurRadius => "Changed the blur radius from the `Settings -> Appearance` dialog",
            TelemetryEventDiscriminants::ToggleDimInactivePanes => "Whether the dim inactive panes feature has been toggled",
            TelemetryEventDiscriminants::InputModeChanged => "Changed the Input Editor Mode (Pinned to Bottom, Pinned to Top, Classic / Waterfall Mode)",
            TelemetryEventDiscriminants::PtySpawned => "Tracks the manner by which we create a new shell process (new codepath vs. old codepath).  Used to ensure nothing breaks as we change parts of our infrastructure.",
            TelemetryEventDiscriminants::InitialWorkingDirectoryConfigurationChanged => "Replaced the default working directory with a different path",
            TelemetryEventDiscriminants::ToggleFocusPaneOnHover => "Toggled on/off focus pane on hover feature, which causes panes to automatically focus when hovering over them",
            TelemetryEventDiscriminants::OpenInputContextMenu => "Opened the Input Editor's context menu",
            TelemetryEventDiscriminants::InputCutSelectedText => "Cut the highlighted text via the Input Editor's context menu (right clicking the buffer)",
            TelemetryEventDiscriminants::InputCopySelectedText => "Copied selected text from Input Editor",
            TelemetryEventDiscriminants::InputSelectAll => "Selected all the text in the Input Editor via its context menu (right clicking the buffer)",
            TelemetryEventDiscriminants::InputPaste => "Pasted text into the Input Editor's via its context menu (right clicking the buffer)",
            TelemetryEventDiscriminants::InputCommandSearch => "Opened Command Search via the Input Editor's context menu (right clicking the buffer)",
            TelemetryEventDiscriminants::InputAICommandSearch => "Opened AI Command Search via the Input Editor's context menu (right clicking the buffer)",
            TelemetryEventDiscriminants::SaveAsWorkflowModal => "Opened the modal to create a new workflow using a Block's context--command, etc.",
            TelemetryEventDiscriminants::ExperimentTriggered => "Client assigned to A/B test",
            TelemetryEventDiscriminants::ToggleSyncAllPanesInAllTabs => "Enable the synchronization of the Input Editor's buffer to all the panes in all the tabs",
            TelemetryEventDiscriminants::ToggleSyncAllPanesInTab => "Enable the synchronization of the Input Editor's buffer to all the panes in the current tab",
            TelemetryEventDiscriminants::ToggleSameLinePrompt => "Toggled on/off same line prompt",
            TelemetryEventDiscriminants::ToggleNewWindowsAtCustomSize => "Whether the new windows at custom size feature has been toggled",
            TelemetryEventDiscriminants::SetNewWindowsAtCustomSize => "Set new windows at custom size through Settings -> Appearance",
            TelemetryEventDiscriminants::DisableInputSync => "Disabled / turn off the Input Synchronization (across editors)",
            TelemetryEventDiscriminants::ToggleTabIndicators => "Enabled or disabled the tab indicators (failed command, etc.)",
            TelemetryEventDiscriminants::TogglePreserveActiveTabColor => "Enabled or disabled preserving the active tab color",
            TelemetryEventDiscriminants::ShowSubshellBanner => "Displayed the banner asking whether Rift should Riftify the current session via Rift's subshell wrapper",
            TelemetryEventDiscriminants::DeclineSubshellBootstrap => "Developer declined the Rift banner to Riftify the current session",
            TelemetryEventDiscriminants::TriggerSubshellBootstrap => "Attempted to Riftify the current session via Rift's subshell wrapper",
            TelemetryEventDiscriminants::AddDenylistedSubshellCommand => "Explicitly prevent a command from being Riftified via Rift's subshell wrapper",
            TelemetryEventDiscriminants::RemoveDenylistedSubshellCommand => "Removed a command from the list of commands to IGNORE when trying to Riftify via Rift's subshell wrapper",
            TelemetryEventDiscriminants::AddAddedSubshellCommand => "Added a command to be automatically Riftified via Rift's subshell wrapper",
            TelemetryEventDiscriminants::RemoveAddedSubshellCommand => "Removed a command from the list of commands to automatically Riftify via Rift's subshell wrapper",
            TelemetryEventDiscriminants::ReceivedSubshellRcFileDcs => "Spawned a subshell to be automatically Riftified",
            TelemetryEventDiscriminants::AddDenylistedSshTmuxWrapperHost => "Added a SSH host to the denylist for prompting for Tmux Wrapper",
            TelemetryEventDiscriminants::RemoveDenylistedSshTmuxWrapperHost => "Removed an SSH host from the denylist from prompting for Tmux Wrapper",
            TelemetryEventDiscriminants::ToggleSshTmuxWrapper => "Changed the setting for SSH sessions to prompt for Tmux Wrapper",
            TelemetryEventDiscriminants::ToggleSshRiftification => "Changed the setting for SSH sessions to be warified",
            TelemetryEventDiscriminants::SetSshExtensionInstallMode => "Changed the SSH extension install mode (always ask / always allow / always skip)",
            TelemetryEventDiscriminants::SshInteractiveSessionDetected => "An interactive SSH session was detected",
            TelemetryEventDiscriminants::SshTmuxRiftifyBannerDisplayed => "Displayed the banner asking whether Rift should Riftify the current SSH session via Rift's SSH Wrapper",
            TelemetryEventDiscriminants::SshTmuxRiftifyBlockAccepted => "User accepted an ssh tmux riftify block",
            TelemetryEventDiscriminants::SshTmuxRiftifyBlockDismissed => "User dismissed an ssh tmux riftify block",
            TelemetryEventDiscriminants::RiftifyFooterShown => "Displayed the riftify footer for a detected subshell or SSH session",
            TelemetryEventDiscriminants::RiftifyFooterAcceptedRiftify => "User clicked Riftify in the riftify footer",
            TelemetryEventDiscriminants::SshTmuxRiftificationSuccess => "Ssh tmux riftification succeeded",
            TelemetryEventDiscriminants::SshTmuxRiftificationErrorBlock => "Ssh tmux riftification errored out",
            TelemetryEventDiscriminants::SshInstallTmuxBlockDisplayed => "Displayed an ssh install tmux block",
            TelemetryEventDiscriminants::SshInstallTmuxBlockAccepted => "User accepted an ssh install tmux block",
            TelemetryEventDiscriminants::SshInstallTmuxBlockDismissed => "User dismissed an ssh install tmux block",
            TelemetryEventDiscriminants::ShowAliasExpansionBanner => "Displayed the banner asking whether Rift should automatically expand aliases within the Input Editor",
            TelemetryEventDiscriminants::EnableAliasExpansionFromBanner => "Enabled automatic alias expansion within the Input Editor from the banner",
            TelemetryEventDiscriminants::DismissAliasExpansionBanner => "Dismissed the banner to enable automatic alias expansion within the Input Editor",
            TelemetryEventDiscriminants::ShowVimKeybindingsBanner => "Displayed the banner asking whether Rift should enable Vim keybindings in the Input Editor",
            TelemetryEventDiscriminants::EnableVimKeybindingsFromBanner => "Enabled Vim keybindings in the Input Editor from the banner",
            TelemetryEventDiscriminants::DismissVimKeybindingsBanner => "Dismissed the banner to enable Vim keybindings in the Input Editor",
            TelemetryEventDiscriminants::InitiateReauth => "Started the flow to re-authenticate the client",
            TelemetryEventDiscriminants::InitiateAnonymousUserSignup => "An anonymous user initiated the sign up flow",
            TelemetryEventDiscriminants::AnonymousUserExpirationLockout => "An anonymous user opened Rift after their conversion deadline and was locked out",
            TelemetryEventDiscriminants::AnonymousUserLinkedFromBrowser => "Received an auth payload from anonymous user after linking in browser",
            TelemetryEventDiscriminants::AnonymousUserAttemptLoginGatedFeature => "Anonymous user attempted to access a login-gated feature",
            TelemetryEventDiscriminants::AnonymousUserHitCloudObjectLimit => "Anonymous user attempted to create a cloud object past their personal object limit",
            TelemetryEventDiscriminants::NeedsReauth => "User needs to re-authenticate",
            TelemetryEventDiscriminants::DriveOpened => "Opened Rift Drive panel",
            TelemetryEventDiscriminants::ToggleSecretRedaction => "Toggled on/off the setting for Secret Redaction - attempts to redact secrets and sensitive information",
            TelemetryEventDiscriminants::CustomSecretRegexAdded => "Custom Secret Regex Added",
            TelemetryEventDiscriminants::ToggleObfuscateSecret => "Revealed or hid a secret",
            TelemetryEventDiscriminants::CopySecret => "Copied a secret's obfuscated contents to clipboard",
            TelemetryEventDiscriminants::AutoGenerateMetadataSuccess => "Successfully generated metadata for a workflow using Rift AI",
            TelemetryEventDiscriminants::AutoGenerateMetadataError => "Failed to generate metadata for a workflow using Rift AI",
            TelemetryEventDiscriminants::UndoClose => "Re-opened a closed tab or window (undo closing a tab or window)",
            TelemetryEventDiscriminants::PtyThroughput => "A sample of the max PTY throughput in bytes/sec",
            TelemetryEventDiscriminants::DriveSharingOnboardingBlockShown => "Showed onboarding block for Rift Drive sharing",
            TelemetryEventDiscriminants::CommandFileRun => "Opened a .cmd or unix executable file and ran it directly in Rift",
            TelemetryEventDiscriminants::PageUpDownInEditorPressed => "Pressed `PAGE-UP` or `PAGE-DOWN` within the Input Editor",
            TelemetryEventDiscriminants::JoinedSharedSession => "When you join another instance of Rift using shared sessions",
            TelemetryEventDiscriminants::SharedSessionModalUpgradePressed => "Pressed upgrade after reaching max session sharing limit",
            TelemetryEventDiscriminants::SharerCancelledGrantRole => "When you cancel granting a role to a shared session participant",
            TelemetryEventDiscriminants::SharerGrantModalDontShowAgain => "When you check don't show again on the confirmation modal for granting a role",
            TelemetryEventDiscriminants::JumpToSharedSessionParticipant => "Clicked on a shared session participant avatar to jump to their location in the session",
            TelemetryEventDiscriminants::UnsupportedShell => "Booted Rift with a shell that isn't supported",
            TelemetryEventDiscriminants::LogOut => "Logged out of the Rift client",
            TelemetryEventDiscriminants::SettingsImportInitiated => "Started the import settings flow for new users",
            TelemetryEventDiscriminants::InviteTeammates => "Sent emails to invite teammates to join Rift Drive team",
            TelemetryEventDiscriminants::OpenAndRiftifyDockerSubshell => "Riftifying a docker subshell from using the docker extension",
            TelemetryEventDiscriminants::UpdateBlockFilterQuery => "When a new filter is applied to a block",
            TelemetryEventDiscriminants::UpdateBlockFilterQueryContextLines => "When the number of context lines for a block filter query is updated",
            TelemetryEventDiscriminants::ToggleBlockFilterQuery => "Toggled on/off a block filter query",
            TelemetryEventDiscriminants::ToggleBlockFilterCaseSensitivity => "Toggled on/off case sensitivity within the block filter editor",
            TelemetryEventDiscriminants::ToggleBlockFilterRegex => "Toggled on/off regex within the block filter editor",
            TelemetryEventDiscriminants::ToggleBlockFilterInvert => "Toggled on/off invert within the block filter editor",
            TelemetryEventDiscriminants::BlockFilterToolbeltButtonClicked => "Clicked the block filter icon in the top-right of a block",
            TelemetryEventDiscriminants::ToggleSnackbarInActivePane => "Expanded or collapsed the sticky command header in the active pane",
            TelemetryEventDiscriminants::PaneDragInitiated => "Initiated dragging a pane via the header",
            TelemetryEventDiscriminants::PaneDropped => "Ended dragging a pane via the pane header",
            TelemetryEventDiscriminants::ObjectLinkCopied => "The web link to an object has been copied.",
            TelemetryEventDiscriminants::FileTreeToggled => "Opened the file tree/project explorer",
            TelemetryEventDiscriminants::FileTreeItemAttachedAsContext => "Attached a file or directory as context from the file tree",
            TelemetryEventDiscriminants::CodeSelectionAddedAsContext => "Added selected code as context from the code editor",
            TelemetryEventDiscriminants::FileTreeItemCreated => "Created a new file from the file tree",
            TelemetryEventDiscriminants::PromptSuggestionShown => "Prompt Suggestions banner shown",
            TelemetryEventDiscriminants::SuggestedCodeDiffFailed => "Suggested Code Diff Failed",
            TelemetryEventDiscriminants::PromptSuggestionAccepted => "Prompt Suggestion accepted",
            TelemetryEventDiscriminants::StaticPromptSuggestionsBannerShown => "Static Prompt Suggestions banner shown",
            TelemetryEventDiscriminants::StaticPromptSuggestionAccepted => "Static Prompt Suggestion accepted",
            TelemetryEventDiscriminants::ToggleIntelligentAutosuggestionsSetting => "Toggled on/off the intelligent autosuggestions setting",
            TelemetryEventDiscriminants::ToggleGlobalAI => "Toggled global AI enablement.",
            TelemetryEventDiscriminants::ToggleCodebaseContext => "Toggled on/off the enablement of codebase context usage for Agent Mode.",
            TelemetryEventDiscriminants::ToggleAutoIndexing => "Toggled on/off the enablement of autoindexing for codebase context.",
            TelemetryEventDiscriminants::ActiveIndexedReposChanged => "Active indexed repositories changed, affecting codebase context.",
            TelemetryEventDiscriminants::ToggleActiveAI => "Toggled active AI enablement.",
            TelemetryEventDiscriminants::TogglePromptSuggestionsSetting => "Toggled on/off the prompt suggestions setting",
            TelemetryEventDiscriminants::ToggleCodeSuggestionsSetting => "Toggled on/off the code suggestions setting",
            TelemetryEventDiscriminants::ToggleNaturalLanguageAutosuggestionsSetting => "Toggled on/off the natural language autosuggestions setting",
            TelemetryEventDiscriminants::ToggleSharedBlockTitleGenerationSetting => "Toggled on/off the shared block title generation setting",
            TelemetryEventDiscriminants::ToggleGitOperationsAutogenSetting => "Toggled on/off the git operations autogen setting",
            TelemetryEventDiscriminants::ToggleVoiceInputSetting => "Toggled on/off the voice input setting",
            TelemetryEventDiscriminants::TierLimitHit => "User hit the tier limit for a feature",
            TelemetryEventDiscriminants::SharedObjectLimitHitBannerViewPlansButtonClicked => "Clicked the 'View Plans' button on the persistent drive banner",
            TelemetryEventDiscriminants::ResourceUsageStats => "Periodic report on application resource usage statistics",
            TelemetryEventDiscriminants::MemoryUsageStats => "Periodic report on application memory usage statistics",
            TelemetryEventDiscriminants::MemoryUsageHigh => "Total application memory usage exceeded a significant threshold",
            TelemetryEventDiscriminants::CompletedSettingsImport => "Imported a terminal's settings via the settings import onboarding block",
            TelemetryEventDiscriminants::SettingsImportConfigFocused => "Selected a terminal in the settings import onboarding block",
            TelemetryEventDiscriminants::SettingsImportResetButtonClicked => "Reset the imported settings in the settings import onboarding block",
            TelemetryEventDiscriminants::SettingsImportConfigParsed => "Parsed a terminal's settings as part of settings import",
            TelemetryEventDiscriminants::ITermMultipleHotkeys => "Attempted to import an iTerm profile that contained multiple hotkey window bindings",
            TelemetryEventDiscriminants::UserMenuUpgradeClicked => "Clicked the 'Upgrade' menu item in the user menu",
            TelemetryEventDiscriminants::ToggleWorkspaceDecorationVisibility => "Toggled when to display the tab bar",
            TelemetryEventDiscriminants::UpdateAltScreenPaddingMode => "Updated the custom padding setting for the alt-screen",
            TelemetryEventDiscriminants::AddTabWithShell => "Added a tab with specific shell",
            TelemetryEventDiscriminants::ToggleLigatureRendering => "Toggled ligature rendering",
            TelemetryEventDiscriminants::RepoOutlineConstructionSuccess => "Repository outline built successfully for providing codebase context",
            TelemetryEventDiscriminants::RepoOutlineConstructionFailed => "Repository outline built failed",
            TelemetryEventDiscriminants::KnowledgePaneOpened => "Knowledge Pane Opened",
            TelemetryEventDiscriminants::CodePanelsFileOpened => "Opened a file from code review, project explorer, or global search",
            TelemetryEventDiscriminants::PreviewPanePromoted => "Promoted a preview code tab to a normal tab",
            TelemetryEventDiscriminants::WSLRegistryError => "Encountered an error while fetching WSL distributions from the registry",
            TelemetryEventDiscriminants::AutoupdateUnableToCloseApplications => "The Windows auto-update installer was unable to automatically close all applications before installing the update",
            TelemetryEventDiscriminants::AutoupdateFileInUse => "The Windows auto-update installer encountered a file-in-use error during installation",
            TelemetryEventDiscriminants::AutoupdateMutexTimeout => "The Windows auto-update installer timed out waiting for Rift to release its mutex; a force-kill was attempted",
            TelemetryEventDiscriminants::AutoupdateForcekillFailed => "The Windows auto-update installer failed to force-kill Rift after the mutex timeout",
            TelemetryEventDiscriminants::AutoupdateMinidumpCleanupFailed => "The Windows auto-update installer failed to clean up the orphaned minidump server process",
            TelemetryEventDiscriminants::ImageReceived => "Received an image through an image protocol over the pty",
            TelemetryEventDiscriminants::GrepToolSucceeded => "The grep tool completed successfully",
            TelemetryEventDiscriminants::FileGlobToolSucceeded => "The file glob tool completed successfully",
            TelemetryEventDiscriminants::ShellTerminatedPrematurely => "The shell process terminated prematurely",
            TelemetryEventDiscriminants::InputUXModeChanged => "Changed the input UX mode",
            TelemetryEventDiscriminants::ContextChipInteracted => "Interacted with a context chip",
            TelemetryEventDiscriminants::TabCloseButtonPositionUpdated => "Updated the tab close button position",
            TelemetryEventDiscriminants::AIExecutionProfileCreated => "A new AI execution profile was created",
            TelemetryEventDiscriminants::AIExecutionProfileDeleted => "An AI execution profile was deleted",
            TelemetryEventDiscriminants::AIExecutionProfileSettingUpdated => "An AI execution profile setting was updated",
            TelemetryEventDiscriminants::AIExecutionProfileAddedToAllowlist => "An item was added to an AI execution profile allowlist",
            TelemetryEventDiscriminants::AIExecutionProfileAddedToDenylist => "An item was added to an AI execution profile denylist",
            TelemetryEventDiscriminants::AIExecutionProfileRemovedFromAllowlist => "An item was removed from an AI execution profile allowlist",
            TelemetryEventDiscriminants::AIExecutionProfileRemovedFromDenylist => "An item was removed from an AI execution profile denylist",
            TelemetryEventDiscriminants::AIExecutionProfileModelSelected => "An AI model was selected for an AI execution profile",
            TelemetryEventDiscriminants::AIExecutionProfileContextWindowSelected => "Selected a context window limit for an execution profile's base model",
            TelemetryEventDiscriminants::OpenSlashMenu => "Opened the slash commands menu",
            TelemetryEventDiscriminants::SlashCommandAccepted => "User accepted a slash command",
            TelemetryEventDiscriminants::CreateProjectPromptSubmitted => "User submitted a prompt from the create project view",
            TelemetryEventDiscriminants::CreateProjectPromptSubmittedContent => "User submitted custom prompt content from the create project view",
            TelemetryEventDiscriminants::CloneRepoPromptSubmitted => "User submitted a repository URL from the clone repo view",
            TelemetryEventDiscriminants::GetStartedSkipToTerminal => "User clicked skip to terminal from get started view",
            TelemetryEventDiscriminants::RecentMenuItemSelected => "User selected an item from the recents list on the new tab zero state",
            TelemetryEventDiscriminants::OpenRepoFolderSubmitted => "User selected a folder to open as a repo from the \"Open repository\" button",
            TelemetryEventDiscriminants::OutOfCreditsBannerClosed => "User closed the 'Out of credits' banner (dismissed or purchased credits)",
            TelemetryEventDiscriminants::AutoReloadModalClosed => "User closed the auto-reload modal (either dismissed or enabled auto-reload)",
            TelemetryEventDiscriminants::AutoReloadToggledFromBillingSettings => "User toggled auto-reload in Billing & Usage settings",
            TelemetryEventDiscriminants::DetectedIsolationPlatform => "Detected that Rift is running in an isolated sandbox",
            TelemetryEventDiscriminants::LinearIssueLinkOpened => "User opened a rift://linear deeplink to work on an issue",
            TelemetryEventDiscriminants::FreeTierLimitHitInterstitialDisplayed => "The free tier limit hit interstitial was displayed",
            TelemetryEventDiscriminants::FreeTierLimitHitInterstitialUpgradeButtonClicked => "User clicked the 'Upgrade' button in the free tier limit hit interstitial",
            TelemetryEventDiscriminants::FreeTierLimitHitInterstitialClosed => "User closed the free tier limit hit interstitial",
            TelemetryEventDiscriminants::QueuedPromptPanelCollapseToggled => "User toggled the queued prompts panel collapse state",
        }
    }
}

/// The kind whose name is `s`, found by looking at the length of `s` and at
/// a few of its characters; only used to show that names are distinct.
spec fn kind_from_name(s: Seq<char>) -> Option<TelemetryEventDiscriminants> {
    if s.len() == 7 {
        Some(TelemetryEventDiscriminants::LogOut)
    } else if s.len() == 8 {
        Some(TelemetryEventDiscriminants::MoveTab)
    } else if s.len() == 9 {
        Some(TelemetryEventDiscriminants::TeamLeft)
    } else if s.len() == 10 {
        if s[0] == 'S' {
            Some(TelemetryEventDiscriminants::SplitPane)
        } else {
            Some(TelemetryEventDiscriminants::UndoClose)
        }
    } else if s.len() == 11 {
        if s[2] == 'p' {
            Some(TelemetryEventDiscriminants::AppStartup)
        } else if s[2] == 'b' {
            Some(TelemetryEventDiscriminants::TabRenamed)
        } else if s[2] == 'e' {
            Some(TelemetryEventDiscriminants::OpenLink)
        } else if s[2] == 'a' {
            Some(TelemetryEventDiscriminants::TeamJoined)
        } else {
            Some(TelemetryEventDiscriminants::PtySpawned)
        }
    } else if s.len() == 12 {
        if s[3] == ' ' {
            Some(TelemetryEventDiscriminants::SessionCreation)
        } else if s[3] == 'e' {
            Some(TelemetryEventDiscriminants::ThemeSelection)
        } else if s[3] == 'n' {
            Some(TelemetryEventDiscriminants::PaletteSearchOpened)
        } else if s[3] == 'm' {
            Some(TelemetryEventDiscriminants::TeamCreated)
        } else {
            Some(TelemetryEventDiscriminants::NeedsReauth)
        }
    } else if s.len() == 13 {
        if s[0] == 'P' {
            Some(TelemetryEventDiscriminants::PromptEdited)
        } else {
            Some(TelemetryEventDiscriminants::InputPaste)
        }
    } else if s.len() == 14 {
        if s[1] == 'l' {
            Some(TelemetryEventDiscriminants::BlockCompleted)
        } else if s[1] == 'a' {
            Some(TelemetryEventDiscriminants::TabOperations)
        } else if s[1] == 'T' {
            Some(TelemetryEventDiscriminants::PtyThroughput)
        } else if s[1] == 'i' {
            Some(TelemetryEventDiscriminants::TierLimitHit)
        } else {
            Some(TelemetryEventDiscriminants::ImageReceived)
        }
    } else if s.len() == 15 {
        if s[2] == 'o' {
            Some(TelemetryEventDiscriminants::BlockSelection)
        } else if s[2] == 'l' {
            Some(TelemetryEventDiscriminants::AppIconSelection)
        } else if s[2] == 'v' {
            Some(TelemetryEventDiscriminants::MoveActiveTab)
        } else if s[2] == 't' {
            Some(TelemetryEventDiscriminants::SetLineHeight)
        } else if s[2] == 'i' {
            Some(TelemetryEventDiscriminants::InitiateReauth)
        } else if s[2] == 'n' {
            Some(TelemetryEventDiscriminants::PaneDropped)
        } else {
            Some(TelemetryEventDiscriminants::OpenSlashMenu)
        }
    } else if s.len() == 16 {
        if s[8] == 'i' {
            Some(TelemetryEventDiscriminants::CopyInviteLink)
        } else if s[8] == 'k' {
            Some(TelemetryEventDiscriminants::TeamLinkCopied)
        } else if s[8] == 'W' {
            Some(TelemetryEventDiscriminants::DeletedWorkflow)
        } else if s[8] == 'N' {
            Some(TelemetryEventDiscriminants::DeletedNotebook)
        } else if s[8] == 'a' {
            Some(TelemetryEventDiscriminants::QuitModalShown)
        } else {
            Some(TelemetryEventDiscriminants::CommandFileRun)
        }
    } else if s.len() == 17 {
        if s[5] == 'C' {
            Some(TelemetryEventDiscriminants::OpenContextMenu)
        } else if s[5] == 'x' {
            Some(TelemetryEventDiscriminants::ContextMenuCopy)
        } else if s[5] == 'W' {
            Some(TelemetryEventDiscriminants::OpenWelcomeTips)
        } else if s[5] == 'a' {
            Some(TelemetryEventDiscriminants::DragAndDropTab)
        } else if s[5] == 'B' {
            Some(TelemetryEventDiscriminants::InputSelectAll)
        } else if s[5] == 'D' {
            Some(TelemetryEventDiscriminants::DriveOpened)
        } else if s[5] == 'p' {
            Some(TelemetryEventDiscriminants::UnsupportedShell)
        } else if s[5] == 'e' {
            Some(TelemetryEventDiscriminants::InviteTeammates)
        } else {
            Some(TelemetryEventDiscriminants::FileTreeToggled)
        }
    } else if s.len() == 18 {
        if s[6] == 'm' {
            if s[0] == 'C' {
                Some(TelemetryEventDiscriminants::ConfirmSuggestion)
            } else {
                Some(TelemetryEventDiscriminants::SendEmailInvites)
            }
        } else if s[6] == 'r' {
            Some(TelemetryEventDiscriminants::BootstrappingSlow)
        } else if s[6] == 'h' {
            Some(TelemetryEventDiscriminants::OpenThemeChooser)
        } else if s[6] == ' ' {
            if s[0] == 'S' {
                Some(TelemetryEventDiscriminants::CursorDisplayType)
            } else {
                Some(TelemetryEventDiscriminants::ObjectLinkCopied)
            }
        } else if s[6] == 'd' {
            if s[11] == 'C' {
                Some(TelemetryEventDiscriminants::KeybindingChanged)
            } else {
                Some(TelemetryEventDiscriminants::KeybindingRemoved)
            }
        } else if s[6] == 'e' {
            Some(TelemetryEventDiscriminants::OpenTeamFromURI)
        } else if s[6] == 'a' {
            if s[0] == 'S' {
                Some(TelemetryEventDiscriminants::SaveLaunchConfig)
            } else {
                Some(TelemetryEventDiscriminants::OpenLaunchConfig)
            }
        } else if s[6] == 'n' {
            Some(TelemetryEventDiscriminants::SetOpacity)
        } else if s[6] == 'M' {
            Some(TelemetryEventDiscriminants::InputModeChanged)
        } else {
            Some(TelemetryEventDiscriminants::AddTabWithShell)
        }
    } else if s.len() == 19 {
        if s[1] == 'r' {
            Some(TelemetryEventDiscriminants::CreateCustomTheme)
        } else if s[1] == 'e' {
            Some(TelemetryEventDiscriminants::DeleteCustomTheme)
        } else if s[1] == 'a' {
            Some(TelemetryEventDiscriminants::DatabaseReadError)
        } else if s[1] == 'p' {
            Some(TelemetryEventDiscriminants::DownloadSource)
        } else if s[1] == 'i' {
            Some(TelemetryEventDiscriminants::ToggleFindOption)
        } else if s[1] == 'u' {
            Some(TelemetryEventDiscriminants::QuitModalDisabled)
        } else {
            Some(TelemetryEventDiscriminants::LogOutModalShown)
        }
    } else if s.len() == 20 {
        if s[0] == 'P' {
            Some(TelemetryEventDiscriminants::OpenPromptEditor)
        } else if s[0] == 'D' {
            if s[1] == 'a' {
                Some(TelemetryEventDiscriminants::DatabaseWriteError)
            } else {
                Some(TelemetryEventDiscriminants::DismissWelcomeTips)
            }
        } else if s[0] == 'F' {
            if s[1] == 'e' {
                Some(TelemetryEventDiscriminants::FeaturesPageAction)
            } else {
                Some(TelemetryEventDiscriminants::FileTreeItemCreated)
            }
        } else if s[0] == 'C' {
            Some(TelemetryEventDiscriminants::CompleteWelcomeTipFeature)
        } else if s[0] == 'N' {
            Some(TelemetryEventDiscriminants::NotificationClicked)
        } else if s[0] == 'T' {
            Some(TelemetryEventDiscriminants::ToggleSettingsSync)
        } else if s[0] == 'G' {
            Some(TelemetryEventDiscriminants::GlobalSearchOpened)
        } else if s[0] == 'S' {
            Some(TelemetryEventDiscriminants::ShowSubshellBanner)
        } else {
            Some(TelemetryEventDiscriminants::RiftifyFooterShown)
        }
    } else if s.len() == 21 {
        if s[8] == 'g' {
            if s[0] == 'O' {
                Some(TelemetryEventDiscriminants::OpenSuggestionsMenu)
            } else {
                Some(TelemetryEventDiscriminants::PaneDragInitiated)
            }
        } else if s[8] == 's' {
            Some(TelemetryEventDiscriminants::SSHBootstrapAttempt)
        } else if s[8] == 'k' {
            Some(TelemetryEventDiscriminants::OpenWorkflowSearch)
        } else if s[8] == 'h' {
            if s[0] == 'O' {
                Some(TelemetryEventDiscriminants::OpenChangelogLink)
            } else {
                Some(TelemetryEventDiscriminants::JoinedSharedSession)
            }
        } else if s[8] == 'S' {
            if s[15] == 'O' {
                Some(TelemetryEventDiscriminants::CommandSearchOpened)
            } else {
                Some(TelemetryEventDiscriminants::CommandSearchExited)
            }
        } else if s[8] == 'C' {
            Some(TelemetryEventDiscriminants::InputCommandSearch)
        } else if s[8] == 'a' {
            Some(TelemetryEventDiscriminants::ToggleTabIndicators)
        } else if s[8] == 'e' {
            Some(TelemetryEventDiscriminants::KnowledgePaneOpened)
        } else if s[8] == 'l' {
            Some(TelemetryEventDiscriminants::CodePanelsFileOpened)
        } else {
            Some(TelemetryEventDiscriminants::PreviewPanePromoted)
        }
    } else if s.len() == 22 {
        if s[12] == 'i' {
            Some(TelemetryEventDiscriminants::SkipOnboardingSurvey)
        } else if s[12] == 'r' {
            if s[0] == 'T' {
                Some(TelemetryEventDiscriminants::ToggleRestoreSession)
            } else {
                Some(TelemetryEventDiscriminants::DatabaseStartUpError)
            }
        } else if s[12] == 'p' {
            Some(TelemetryEventDiscriminants::LoggedOutStartup)
        } else if s[12] == 'o' {
            Some(TelemetryEventDiscriminants::OpenQuakeModeWindow)
        } else if s[12] == 'm' {
            if s[1] == 'o' {
                Some(TelemetryEventDiscriminants::BookmarkBlockToggled)
            } else {
                Some(TelemetryEventDiscriminants::CommandXRayTriggered)
            }
        } else if s[12] == 'n' {
            Some(TelemetryEventDiscriminants::OpenLaunchConfigSaveModal)
        } else if s[12] == ' ' {
            Some(TelemetryEventDiscriminants::RemovedUserFromTeam)
        } else if s[12] == 'v' {
            Some(TelemetryEventDiscriminants::ToggleApprovalsModal)
        } else if s[12] == 't' {
            if s[0] == 'R' {
                Some(TelemetryEventDiscriminants::ResourceCenterOpened)
            } else {
                Some(TelemetryEventDiscriminants::CopySecret)
            }
        } else if s[12] == 'e' {
            Some(TelemetryEventDiscriminants::UserInitiatedLogOut)
        } else if s[12] == 'l' {
            Some(TelemetryEventDiscriminants::SetBlurRadius)
        } else if s[12] == 'd' {
            Some(TelemetryEventDiscriminants::SlashCommandAccepted)
        } else {
            Some(TelemetryEventDiscriminants::LinearIssueLinkOpened)
        }
    } else if s.len() == 23 {
        if s[8] == 'e' {
            if s[0] == 'A' {
                Some(TelemetryEventDiscriminants::AutosuggestionInserted)
            } else {
                Some(TelemetryEventDiscriminants::ToggleSecretRedaction)
            }
        } else if s[8] == 'C' {
            if s[0] == 'B' {
                Some(TelemetryEventDiscriminants::BaselineCommandLatency)
            } else {
                Some(TelemetryEventDiscriminants::InputCutSelectedText)
            }
        } else if s[8] == 'n' {
            if s[0] == 'L' {
                Some(TelemetryEventDiscriminants::Login)
            } else {
                Some(TelemetryEventDiscriminants::OpenLaunchConfigFile)
            }
        } else if s[8] == 'p' {
            if s[9] == ' ' {
                Some(TelemetryEventDiscriminants::BootstrappingSlowContents)
            } else {
                Some(TelemetryEventDiscriminants::BootstrappingSucceeded)
            }
        } else if s[8] == 'r' {
            Some(TelemetryEventDiscriminants::SSHControlMasterError)
        } else if s[8] == ' ' {
            Some(TelemetryEventDiscriminants::DragAndDropTabGroup)
        } else if s[8] == 't' {
            if s[0] == 'O' {
                Some(TelemetryEventDiscriminants::OpenInputContextMenu)
            } else {
                Some(TelemetryEventDiscriminants::SshTmuxRiftifyBannerDisplayed)
            }
        } else if s[8] == 'A' {
            Some(TelemetryEventDiscriminants::InputAICommandSearch)
        } else if s[8] == 'a' {
            Some(TelemetryEventDiscriminants::ToggleSameLinePrompt)
        } else if s[8] == 'S' {
            Some(TelemetryEventDiscriminants::ToggleSshTmuxWrapper)
        } else {
            Some(TelemetryEventDiscriminants::ToggleObfuscateSecret)
        }
    } else if s.len() == 24 {
        if s[5] == 'r' {
            Some(TelemetryEventDiscriminants::BackgroundBlockStarted)
        } else if s[5] == 'x' {
            Some(TelemetryEventDiscriminants::ContextMenuCopyPrompt)
        } else if s[5] == 'T' {
            Some(TelemetryEventDiscriminants::OpenThemeCreatorModal)
        } else if s[5] == 'd' {
            Some(TelemetryEventDiscriminants::JumpToBookmark)
        } else if s[5] == 'n' {
            Some(TelemetryEventDiscriminants::CommandCorrection)
        } else if s[5] == 'm' {
            Some(TelemetryEventDiscriminants::AICommandSearchOpened)
        } else if s[5] == 'B' {
            Some(TelemetryEventDiscriminants::InputCopySelectedText)
        } else if s[5] == 'e' {
            Some(TelemetryEventDiscriminants::ToggleSshRiftification)
        } else if s[5] == 'M' {
            Some(TelemetryEventDiscriminants::GrepToolSucceeded)
        } else {
            Some(TelemetryEventDiscriminants::InputUXModeChanged)
        }
    } else if s.len() == 25 {
        if s[21] == 's' {
            if s[0] == 'Q' {
                Some(TelemetryEventDiscriminants::QuitModalCancel)
            } else {
                Some(TelemetryEventDiscriminants::MemoryUsageStats)
            }
        } else if s[21] == 'a' {
            if s[0] == 'T' {
                Some(TelemetryEventDiscriminants::ToggleDimInactivePanes)
            } else {
                Some(TelemetryEventDiscriminants::SettingsImportInitiated)
            }
        } else if s[21] == 'p' {
            if s[0] == 'D' {
                Some(TelemetryEventDiscriminants::DisableInputSync)
            } else {
                Some(TelemetryEventDiscriminants::CompletedSettingsImport)
            }
        } else if s[21] == 'd' {
            Some(TelemetryEventDiscriminants::CustomSecretRegexAdded)
        } else if s[21] == 'u' {
            if s[0] == 'U' {
                Some(TelemetryEventDiscriminants::UpdateBlockFilterQuery)
            } else {
                Some(TelemetryEventDiscriminants::ToggleBlockFilterQuery)
            }
        } else if s[21] == 'e' {
            Some(TelemetryEventDiscriminants::ToggleBlockFilterRegex)
        } else if s[21] == 'c' {
            if s[0] == 'U' {
                Some(TelemetryEventDiscriminants::UserMenuUpgradeClicked)
            } else {
                Some(TelemetryEventDiscriminants::RecentMenuItemSelected)
            }
        } else {
            Some(TelemetryEventDiscriminants::ToggleLigatureRendering)
        }
    } else if s.len() == 26 {
        if s[7] == 't' {
            Some(TelemetryEventDiscriminants::JumpToPreviousCommand)
        } else if s[7] == 'a' {
            if s[0] == 'L' {
                Some(TelemetryEventDiscriminants::LoginLaterButtonClicked)
            } else {
                Some(TelemetryEventDiscriminants::OpenedAltScreenFind)
            }
        } else if s[7] == 's' {
            Some(TelemetryEventDiscriminants::OpenNewSessionFromFilePath)
        } else if s[7] == 'I' {
            Some(TelemetryEventDiscriminants::EditedInputBeforePrecmd)
        } else if s[7] == 'S' {
            Some(TelemetryEventDiscriminants::ToggleShowBlockDividers)
        } else if s[7] == 'F' {
            Some(TelemetryEventDiscriminants::ToggleFocusPaneOnHover)
        } else if s[7] == ' ' {
            if s[1] == 'e' {
                Some(TelemetryEventDiscriminants::DeclineSubshellBootstrap)
            } else if s[1] == 'r' {
                Some(TelemetryEventDiscriminants::TriggerSubshellBootstrap)
            } else {
                Some(TelemetryEventDiscriminants::ToggleWorkspaceDecorationVisibility)
            }
        } else if s[7] == 'e' {
            if s[0] == 'A' {
                Some(TelemetryEventDiscriminants::AddAddedSubshellCommand)
            } else if s[0] == 'F' {
                Some(TelemetryEventDiscriminants::FileTreeItemAttachedAsContext)
            } else {
                Some(TelemetryEventDiscriminants::SuggestedCodeDiffFailed)
            }
        } else if s[7] == 'B' {
            Some(TelemetryEventDiscriminants::ToggleBlockFilterInvert)
        } else if s[7] == 'V' {
            Some(TelemetryEventDiscriminants::ToggleVoiceInputSetting)
        } else {
            Some(TelemetryEventDiscriminants::OpenRepoFolderSubmitted)
        }
    } else if s.len() == 27 {
        if s[11] == 'R' {
            Some(TelemetryEventDiscriminants::KeybindingResetToDefault)
        } else if s[11] == 'n' {
            Some(TelemetryEventDiscriminants::NotificationFailedToSend)
        } else if s[11] == 'c' {
            Some(TelemetryEventDiscriminants::GlobalSearchQueryStarted)
        } else if s[11] == 'E' {
            Some(TelemetryEventDiscriminants::ShowAliasExpansionBanner)
        } else if s[11] == 'e' {
            Some(TelemetryEventDiscriminants::SharerCancelledGrantRole)
        } else if s[11] == 'a' {
            Some(TelemetryEventDiscriminants::ToggleGlobalAI)
        } else if s[11] == 'v' {
            Some(TelemetryEventDiscriminants::ToggleActiveAI)
        } else if s[11] == 's' {
            Some(TelemetryEventDiscriminants::ResourceUsageStats)
        } else if s[11] == 'x' {
            Some(TelemetryEventDiscriminants::ContextChipInteracted)
        } else {
            Some(TelemetryEventDiscriminants::CloneRepoPromptSubmitted)
        }
    } else if s.len() == 28 {
        if s[4] == 'N' {
            Some(TelemetryEventDiscriminants::ShowNotificationsErrorBanner)
        } else if s[4] == 'I' {
            Some(TelemetryEventDiscriminants::LoginButtonClicked)
        } else if s[4] == ' ' {
            Some(TelemetryEventDiscriminants::ThinStrokesSettingChanged)
        } else if s[4] == 'e' {
            Some(TelemetryEventDiscriminants::ShowInFileExplorer)
        } else if s[4] == 'u' {
            Some(TelemetryEventDiscriminants::ResourceCenterTipsSkipped)
        } else if s[4] == 'O' {
            Some(TelemetryEventDiscriminants::LogOutModalCancel)
        } else if s[4] == 'A' {
            Some(TelemetryEventDiscriminants::OpenAndRiftifyDockerSubshell)
        } else if s[4] == 'v' {
            Some(TelemetryEventDiscriminants::ActiveIndexedReposChanged)
        } else if s[4] == 't' {
            Some(TelemetryEventDiscriminants::FileGlobToolSucceeded)
        } else if s[4] == 'l' {
            Some(TelemetryEventDiscriminants::ShellTerminatedPrematurely)
        } else if s[4] == 'x' {
            if s[21] == 'C' {
                Some(TelemetryEventDiscriminants::AIExecutionProfileCreated)
            } else {
                Some(TelemetryEventDiscriminants::AIExecutionProfileDeleted)
            }
        } else {
            Some(TelemetryEventDiscriminants::GetStartedSkipToTerminal)
        }
    } else if s.len() == 29 {
        if s[15] == 'r' {
            Some(TelemetryEventDiscriminants::EditorUnhandledModifierKey)
        } else if s[15] == 'C' {
            Some(TelemetryEventDiscriminants::SignUpButtonClicked)
        } else if s[15] == 'P' {
            Some(TelemetryEventDiscriminants::SelectCommandPaletteOption)
        } else if s[15] == ' ' {
            Some(TelemetryEventDiscriminants::PaletteSearchExited)
        } else if s[15] == 'm' {
            Some(TelemetryEventDiscriminants::AuthToggleFAQ)
        } else if s[15] == 'F' {
            Some(TelemetryEventDiscriminants::CommandSearchFilterChanged)
        } else if s[15] == 'W' {
            Some(TelemetryEventDiscriminants::SaveAsWorkflowModal)
        } else if s[15] == 'b' {
            Some(TelemetryEventDiscriminants::RemoveAddedSubshellCommand)
        } else if s[15] == 'l' {
            Some(TelemetryEventDiscriminants::ReceivedSubshellRcFileDcs)
        } else {
            Some(TelemetryEventDiscriminants::AutoReloadModalClosed)
        }
    } else if s.len() == 30 {
        if s[4] == 'k' {
            Some(TelemetryEventDiscriminants::BlockCompletedOnDogfoodOnly)
        } else if s[4] == 'e' {
            Some(TelemetryEventDiscriminants::ReinputCommands)
        } else if s[4] == 'c' {
            Some(TelemetryEventDiscriminants::SelectNavigationPaletteItem)
        } else if s[4] == 'd' {
            Some(TelemetryEventDiscriminants::TriedToExecuteBeforePrecmd)
        } else if s[4] == 'u' {
            Some(TelemetryEventDiscriminants::ResourceCenterTipsCompleted)
        } else if s[4] == 'a' {
            Some(TelemetryEventDiscriminants::CommandSearchResultAccepted)
        } else if s[4] == 'N' {
            Some(TelemetryEventDiscriminants::SetNewWindowsAtCustomSize)
        } else if s[4] == 'S' {
            Some(TelemetryEventDiscriminants::SetSshExtensionInstallMode)
        } else if s[4] == 'i' {
            Some(TelemetryEventDiscriminants::DismissAliasExpansionBanner)
        } else if s[4] == ' ' {
            Some(TelemetryEventDiscriminants::PageUpDownInEditorPressed)
        } else {
            Some(TelemetryEventDiscriminants::MemoryUsageHigh)
        }
    } else if s.len() == 31 {
        if s[2] == 'n' {
            Some(TelemetryEventDiscriminants::ContextMenuCopySelectedText)
        } else if s[2] == 'a' {
            Some(TelemetryEventDiscriminants::UnableToAutoUpdateToNewVersion)
        } else if s[2] == 'm' {
            Some(TelemetryEventDiscriminants::PaletteSearchResultAccepted)
        } else if s[2] == 'd' {
            if s[0] == 'A' {
                Some(TelemetryEventDiscriminants::AddDenylistedSubshellCommand)
            } else {
                Some(TelemetryEventDiscriminants::UpdateAltScreenPaddingMode)
            }
        } else if s[2] == 'H' {
            if s[4] == 'T' {
                Some(TelemetryEventDiscriminants::SshTmuxRiftifyBlockAccepted)
            } else {
                Some(TelemetryEventDiscriminants::SshInstallTmuxBlockAccepted)
            }
        } else if s[2] == 'f' {
            Some(TelemetryEventDiscriminants::RiftifyFooterAcceptedRiftify)
        } else if s[2] == 'o' {
            Some(TelemetryEventDiscriminants::InitiateAnonymousUserSignup)
        } else if s[2] == 'g' {
            Some(TelemetryEventDiscriminants::ToggleCodeSuggestionsSetting)
        } else if s[2] == 'p' {
            Some(TelemetryEventDiscriminants::RepoOutlineConstructionSuccess)
        } else if s[2] == 'L' {
            Some(TelemetryEventDiscriminants::WSLRegistryError)
        } else {
            Some(TelemetryEventDiscriminants::CreateProjectPromptSubmitted)
        }
    } else if s.len() == 32 {
        if s[10] == 'n' {
            if s[0] == 'C' {
                Some(TelemetryEventDiscriminants::ContextMenuFindWithinBlocks)
            } else {
                Some(TelemetryEventDiscriminants::RepoOutlineConstructionFailed)
            }
        } else if s[10] == ' ' {
            if s[0] == 'T' {
                Some(TelemetryEventDiscriminants::TabSingleResultAutocompletion)
            } else {
                Some(TelemetryEventDiscriminants::TabCloseButtonPositionUpdated)
            }
        } else if s[10] == 'c' {
            if s[1] == 'h' {
                Some(TelemetryEventDiscriminants::ShowNotificationsDiscoveryBanner)
            } else {
                Some(TelemetryEventDiscriminants::SshInteractiveSessionDetected)
            }
        } else if s[10] == 'a' {
            Some(TelemetryEventDiscriminants::UserInitiatedClose)
        } else if s[10] == 's' {
            if s[0] == 'e' {
                Some(TelemetryEventDiscriminants::ExperimentTriggered)
            } else {
                Some(TelemetryEventDiscriminants::TogglePreserveActiveTabColor)
            }
        } else if s[10] == 'i' {
            if s[15] == 'y' {
                Some(TelemetryEventDiscriminants::SshTmuxRiftifyBlockDismissed)
            } else {
                Some(TelemetryEventDiscriminants::SshTmuxRiftificationSuccess)
            }
        } else if s[10] == 'l' {
            if s[26] == 'p' {
                Some(TelemetryEventDiscriminants::SshInstallTmuxBlockDisplayed)
            } else {
                Some(TelemetryEventDiscriminants::SshInstallTmuxBlockDismissed)
            }
        } else if s[10] == 'd' {
            if s[26] == 'p' {
                Some(TelemetryEventDiscriminants::ShowVimKeybindingsBanner)
            } else {
                Some(TelemetryEventDiscriminants::DismissVimKeybindingsBanner)
            }
        } else if s[10] == 'e' {
            Some(TelemetryEventDiscriminants::CodeSelectionAddedAsContext)
        } else if s[10] == 'f' {
            Some(TelemetryEventDiscriminants::SettingsImportConfigParsed)
        } else {
            Some(TelemetryEventDiscriminants::OutOfCreditsBannerClosed)
        }
    } else if s.len() == 33 {
        if s[4] == 'm' {
            Some(TelemetryEventDiscriminants::AutoupdateRelaunchAttempt)
        } else if s[4] == 'f' {
            Some(TelemetryEventDiscriminants::NotificationsErrorBannerAction)
        } else if s[4] == 'l' {
            Some(TelemetryEventDiscriminants::ToggleNewWindowsAtCustomSize)
        } else if s[4] == 'y' {
            Some(TelemetryEventDiscriminants::AnonymousUserExpirationLockout)
        } else if s[4] == 'i' {
            Some(TelemetryEventDiscriminants::StaticPromptSuggestionAccepted)
        } else if s[4] == 's' {
            Some(TelemetryEventDiscriminants::SettingsImportConfigFocused)
        } else if s[4] == 'o' {
            Some(TelemetryEventDiscriminants::AutoupdateMutexTimeout)
        } else {
            Some(TelemetryEventDiscriminants::QueuedPromptPanelCollapseToggled)
        }
    } else if s.len() == 34 {
        if s[2] == 's' {
            Some(TelemetryEventDiscriminants::SessionAbandonedBeforeBootstrap)
        } else if s[2] == 't' {
            Some(TelemetryEventDiscriminants::NotificationPermissionsRequested)
        } else if s[2] == 'm' {
            Some(TelemetryEventDiscriminants::RemoveDenylistedSubshellCommand)
        } else if s[2] == 'H' {
            Some(TelemetryEventDiscriminants::SshTmuxRiftificationErrorBlock)
        } else if s[2] == 'a' {
            Some(TelemetryEventDiscriminants::EnableAliasExpansionFromBanner)
        } else if s[2] == 'o' {
            Some(TelemetryEventDiscriminants::AnonymousUserLinkedFromBrowser)
        } else if s[2] == 'g' {
            Some(TelemetryEventDiscriminants::ToggleCodebaseContext)
        } else {
            Some(TelemetryEventDiscriminants::ITermMultipleHotkeys)
        }
    } else if s.len() == 35 {
        if s[4] == ' ' {
            Some(TelemetryEventDiscriminants::AuthCommonQuestionClicked)
        } else if s[4] == ':' {
            Some(TelemetryEventDiscriminants::OpenAuthPrivacySettings)
        } else if s[4] == 'K' {
            Some(TelemetryEventDiscriminants::EnableVimKeybindingsFromBanner)
        } else if s[4] == 't' {
            Some(TelemetryEventDiscriminants::SharerGrantModalDontShowAgain)
        } else if s[4] == 'l' {
            Some(TelemetryEventDiscriminants::ToggleSharedBlockTitleGenerationSetting)
        } else if s[4] == 'a' {
            Some(TelemetryEventDiscriminants::DetectedIsolationPlatform)
        } else {
            Some(TelemetryEventDiscriminants::FreeTierLimitHitInterstitialClosed)
        }
    } else if s.len() == 36 {
        if s[3] == 't' {
            Some(TelemetryEventDiscriminants::ContextMenuOpenShareModal)
        } else if s[3] == ' ' {
            Some(TelemetryEventDiscriminants::AddDenylistedSshTmuxWrapperHost)
        } else if s[3] == 'e' {
            Some(TelemetryEventDiscriminants::AutoGenerateMetadataError)
        } else if s[3] == 'r' {
            Some(TelemetryEventDiscriminants::SharedSessionModalUpgradePressed)
        } else if s[3] == 'p' {
            Some(TelemetryEventDiscriminants::JumpToSharedSessionParticipant)
        } else if s[3] == 'g' {
            if s[7] == 'B' {
                Some(TelemetryEventDiscriminants::ToggleBlockFilterCaseSensitivity)
            } else {
                Some(TelemetryEventDiscriminants::ToggleAutoIndexing)
            }
        } else if s[3] == 'c' {
            Some(TelemetryEventDiscriminants::BlockFilterToolbeltButtonClicked)
        } else if s[3] == 'n' {
            Some(TelemetryEventDiscriminants::PromptSuggestionAccepted)
        } else if s[3] == 'd' {
            Some(TelemetryEventDiscriminants::AutoupdateForcekillFailed)
        } else {
            Some(TelemetryEventDiscriminants::AIExecutionProfileModelSelected)
        }
    } else if s.len() == 37 {
        if s[12] == 's' {
            Some(TelemetryEventDiscriminants::NotificationsDiscoveryBannerAction)
        } else if s[12] == 't' {
            Some(TelemetryEventDiscriminants::ToggleJumpToBottomofBlockButton)
        } else if s[12] == 'e' {
            Some(TelemetryEventDiscriminants::AnonymousUserHitCloudObjectLimit)
        } else if s[12] == 'p' {
            Some(TelemetryEventDiscriminants::ToggleGitOperationsAutogenSetting)
        } else if s[12] == 'u' {
            Some(TelemetryEventDiscriminants::AutoupdateFileInUse)
        } else {
            Some(TelemetryEventDiscriminants::AIExecutionProfileSettingUpdated)
        }
    } else if s.len() == 38 {
        if s[0] == 'G' {
            Some(TelemetryEventDiscriminants::AutoGenerateMetadataSuccess)
        } else if s[0] == 'S' {
            Some(TelemetryEventDiscriminants::StaticPromptSuggestionsBannerShown)
        } else {
            Some(TelemetryEventDiscriminants::FreeTierLimitHitInterstitialDisplayed)
        }
    } else if s.len() == 39 {
        if s[2] == 'g' {
            Some(TelemetryEventDiscriminants::LoginLaterConfirmationButtonClicked)
        } else if s[2] == 's' {
            Some(TelemetryEventDiscriminants::KeybindingsPageOpened)
        } else if s[2] == 'm' {
            Some(TelemetryEventDiscriminants::RemoveDenylistedSshTmuxWrapperHost)
        } else if s[2] == ' ' {
            Some(TelemetryEventDiscriminants::AIExecutionProfileAddedToDenylist)
        } else {
            Some(TelemetryEventDiscriminants::CreateProjectPromptSubmittedContent)
        }
    } else if s.len() == 40 {
        if s[0] == 'N' {
            Some(TelemetryEventDiscriminants::NotificationsRequestPermissionsOutcome)
        } else if s[0] == 'J' {
            Some(TelemetryEventDiscriminants::JumpToBottomofBlockButtonClicked)
        } else {
            Some(TelemetryEventDiscriminants::AIExecutionProfileAddedToAllowlist)
        }
    } else if s.len() == 41 {
        if s[0] == 'R' {
            Some(TelemetryEventDiscriminants::DriveSharingOnboardingBlockShown)
        } else {
            Some(TelemetryEventDiscriminants::PromptSuggestionShown)
        }
    } else if s.len() == 42 {
        Some(TelemetryEventDiscriminants::ToggleIntelligentAutosuggestionsSetting)
    } else if s.len() == 43 {
        if s[7] == 'W' {
            Some(TelemetryEventDiscriminants::InitialWorkingDirectoryConfigurationChanged)
        } else if s[7] == 'S' {
            Some(TelemetryEventDiscriminants::ToggleSnackbarInActivePane)
        } else if s[7] == 'A' {
            Some(TelemetryEventDiscriminants::TogglePromptSuggestionsSetting)
        } else if s[7] == ' ' {
            Some(TelemetryEventDiscriminants::AutoupdateMinidumpCleanupFailed)
        } else {
            Some(TelemetryEventDiscriminants::AIExecutionProfileRemovedFromDenylist)
        }
    } else if s.len() == 44 {
        if s[1] == 'o' {
            Some(TelemetryEventDiscriminants::ContextMenuInsertSelectedText)
        } else if s[1] == 'n' {
            Some(TelemetryEventDiscriminants::AnonymousUserAttemptLoginGatedFeature)
        } else if s[1] == 'p' {
            Some(TelemetryEventDiscriminants::UpdateBlockFilterQueryContextLines)
        } else if s[1] == 'I' {
            Some(TelemetryEventDiscriminants::AIExecutionProfileRemovedFromAllowlist)
        } else {
            Some(TelemetryEventDiscriminants::AutoReloadToggledFromBillingSettings)
        }
    } else if s.len() == 45 {
        Some(TelemetryEventDiscriminants::AIExecutionProfileContextWindowSelected)
    } else if s.len() == 46 {
        Some(TelemetryEventDiscriminants::ContextMenuToggleGitPromptDirtyIndicator)
    } else if s.len() == 47 {
        if s[7] == 'S' {
            Some(TelemetryEventDiscriminants::ToggleSyncAllPanesInAllTabs)
        } else {
            Some(TelemetryEventDiscriminants::ToggleNaturalLanguageAutosuggestionsSetting)
        }
    } else if s.len() == 49 {
        Some(TelemetryEventDiscriminants::FreeTierLimitHitInterstitialUpgradeButtonClicked)
    } else if s.len() == 50 {
        Some(TelemetryEventDiscriminants::ToggleSyncAllPanesInTab)
    } else if s.len() == 51 {
        Some(TelemetryEventDiscriminants::SettingsImportResetButtonClicked)
    } else if s.len() == 54 {
        Some(TelemetryEventDiscriminants::AutoupdateUnableToCloseApplications)
    } else if s.len() == 56 {
        Some(TelemetryEventDiscriminants::SharedObjectLimitHitBannerViewPlansButtonClicked)
    } else {
        None
    }
}

/// Every name leads back to its kind.
proof fn lemma_name_identifies_kind(e: TelemetryEventDiscriminants)
    ensures
        kind_from_name(telemetry_event_name(e)) == Some(e),
{
    match e {
        TelemetryEventDiscriminants::AutosuggestionInserted => {
            reveal_strlit("Autosuggestion Inserted");
        },
        TelemetryEventDiscriminants::BlockCompleted => {
            reveal_strlit("Block Creation");
        },
        TelemetryEventDiscriminants::BlockCompletedOnDogfoodOnly => {
            reveal_strlit("Block Completed (dogfood only)");
        },
        TelemetryEventDiscriminants::BackgroundBlockStarted => {
            reveal_strlit("Background Block Started");
        },
        TelemetryEventDiscriminants::BaselineCommandLatency => {
            reveal_strlit("BaselineCommand Latency");
        },
        TelemetryEventDiscriminants::SessionCreation => {
            reveal_strlit("Tab Creation");
        },
        TelemetryEventDiscriminants::Login => {
            reveal_strlit("Logged in to native app");
        },
        TelemetryEventDiscriminants::OpenSuggestionsMenu => {
            reveal_strlit("Open Suggestions Menu");
        },
        TelemetryEventDiscriminants::ConfirmSuggestion => {
            reveal_strlit("Confirm Suggestion");
        },
        TelemetryEventDiscriminants::OpenContextMenu => {
            reveal_strlit("Open Context Menu");
        },
        TelemetryEventDiscriminants::ContextMenuCopy => {
            reveal_strlit("Context Menu Copy");
        },
        TelemetryEventDiscriminants::ContextMenuOpenShareModal => {
            reveal_strlit("Context Menu: Initiate Block Sharing");
        },
        TelemetryEventDiscriminants::ContextMenuFindWithinBlocks => {
            reveal_strlit("Context Menu: Find Within Blocks");
        },
        TelemetryEventDiscriminants::ContextMenuCopyPrompt => {
            reveal_strlit("Context Menu Copy Prompt");
        },
        TelemetryEventDiscriminants::ContextMenuToggleGitPromptDirtyIndicator => {
            reveal_strlit("Context Menu Toggle Git Prompt Dirty Indicator");
        },
        TelemetryEventDiscriminants::ContextMenuInsertSelectedText => {
            reveal_strlit("Context Menu Insert Selected Text into Input");
        },
        TelemetryEventDiscriminants::ContextMenuCopySelectedText => {
            reveal_strlit("Context Menu Copy Selected Text");
        },
        TelemetryEventDiscriminants::OpenPromptEditor => {
            reveal_strlit("Prompt Editor Opened");
        },
        TelemetryEventDiscriminants::PromptEdited => {
            reveal_strlit("Prompt Edited");
        },
        TelemetryEventDiscriminants::ReinputCommands => {
            reveal_strlit("Context Menu: Reinput Commands");
        },
        TelemetryEventDiscriminants::JumpToPreviousCommand => {
            reveal_strlit("Jumped to Previous Command");
        },
        TelemetryEventDiscriminants::BlockSelection => {
            reveal_strlit("Block Selection");
        },
        TelemetryEventDiscriminants::BootstrappingSlow => {
            reveal_strlit("Bootstrapping Slow");
        },
        TelemetryEventDiscriminants::BootstrappingSlowContents => {
            reveal_strlit("Bootstrap Slow Contents");
        },
        TelemetryEventDiscriminants::SessionAbandonedBeforeBootstrap => {
            reveal_strlit("Session Abandoned Before Bootstrap");
        },
        TelemetryEventDiscriminants::BootstrappingSucceeded => {
            reveal_strlit("Bootstrapping Succeeded");
        },
        TelemetryEventDiscriminants::TabSingleResultAutocompletion => {
            reveal_strlit("Tab Single Result Autocompletion");
        },
        TelemetryEventDiscriminants::EditorUnhandledModifierKey => {
            reveal_strlit("Unhandled Editor Modifier Key");
        },
        TelemetryEventDiscriminants::CopyInviteLink => {
            reveal_strlit("Copy Invite Link");
        },
        TelemetryEventDiscriminants::OpenThemeChooser => {
            reveal_strlit("Open Theme Chooser");
        },
        TelemetryEventDiscriminants::ThemeSelection => {
            reveal_strlit("Select Theme");
        },
        TelemetryEventDiscriminants::AppIconSelection => {
            reveal_strlit("Select App Icon");
        },
        TelemetryEventDiscriminants::CursorDisplayType => {
            reveal_strlit("Select Cursor Type");
        },
        TelemetryEventDiscriminants::OpenThemeCreatorModal => {
            reveal_strlit("Open Theme Creator Modal");
        },
        TelemetryEventDiscriminants::CreateCustomTheme => {
            reveal_strlit("Create Custom Theme");
        },
        TelemetryEventDiscriminants::DeleteCustomTheme => {
            reveal_strlit("Delete Custom Theme");
        },
        TelemetryEventDiscriminants::SplitPane => {
            reveal_strlit("Split Pane");
        },
        TelemetryEventDiscriminants::UnableToAutoUpdateToNewVersion => {
            reveal_strlit("Unable to Update To New Version");
        },
        TelemetryEventDiscriminants::AutoupdateRelaunchAttempt => {
            reveal_strlit("Attempting to Relaunch for Update");
        },
        TelemetryEventDiscriminants::SkipOnboardingSurvey => {
            reveal_strlit("Skip Onboarding Survey");
        },
        TelemetryEventDiscriminants::ToggleRestoreSession => {
            reveal_strlit("Toggle Restore Session");
        },
        TelemetryEventDiscriminants::DatabaseStartUpError => {
            reveal_strlit("Database Startup Error");
        },
        TelemetryEventDiscriminants::DatabaseReadError => {
            reveal_strlit("Database Read Error");
        },
        TelemetryEventDiscriminants::DatabaseWriteError => {
            reveal_strlit("Database Write Error");
        },
        TelemetryEventDiscriminants::AppStartup => {
            reveal_strlit("App Startup");
        },
        TelemetryEventDiscriminants::LoggedOutStartup => {
            reveal_strlit("Logged-out App Startup");
        },
        TelemetryEventDiscriminants::DownloadSource => {
            reveal_strlit("App Download Source");
        },
        TelemetryEventDiscriminants::SSHBootstrapAttempt => {
            reveal_strlit("SSH Bootstrap Attempt");
        },
        TelemetryEventDiscriminants::SSHControlMasterError => {
            reveal_strlit("SSH ControlMaster Error");
        },
        TelemetryEventDiscriminants::KeybindingChanged => {
            reveal_strlit("Keybinding Changed");
        },
        TelemetryEventDiscriminants::KeybindingResetToDefault => {
            reveal_strlit("Keybinding Reset to Default");
        },
        TelemetryEventDiscriminants::KeybindingRemoved => {
            reveal_strlit("Keybinding Removed");
        },
        TelemetryEventDiscriminants::FeaturesPageAction => {
            reveal_strlit("Features Page Action");
        },
        TelemetryEventDiscriminants::OpenWorkflowSearch => {
            reveal_strlit("Open Workflows Search");
        },
        TelemetryEventDiscriminants::OpenQuakeModeWindow => {
            reveal_strlit("Open Quake Mode Window");
        },
        TelemetryEventDiscriminants::OpenWelcomeTips => {
            reveal_strlit("Open Welcome Tips");
        },
        TelemetryEventDiscriminants::CompleteWelcomeTipFeature => {
            reveal_strlit("Complete Welcome Tip");
        },
        TelemetryEventDiscriminants::DismissWelcomeTips => {
            reveal_strlit("Dismiss Welcome Tips");
        },
        TelemetryEventDiscriminants::ShowNotificationsDiscoveryBanner => {
            reveal_strlit("ShowNotificationsDiscoveryBanner");
        },
        TelemetryEventDiscriminants::NotificationsDiscoveryBannerAction => {
            reveal_strlit("Notifications Discovery Banner Action");
        },
        TelemetryEventDiscriminants::ShowNotificationsErrorBanner => {
            reveal_strlit("ShowNotificationsErrorBanner");
        },
        TelemetryEventDiscriminants::NotificationsErrorBannerAction => {
            reveal_strlit("Notifications Error Banner Action");
        },
        TelemetryEventDiscriminants::NotificationPermissionsRequested => {
            reveal_strlit("Notification Permissions Requested");
        },
        TelemetryEventDiscriminants::NotificationsRequestPermissionsOutcome => {
            reveal_strlit("Notification Request Permissions Outcome");
        },
        TelemetryEventDiscriminants::NotificationFailedToSend => {
            reveal_strlit("Notification Failed to Send");
        },
        TelemetryEventDiscriminants::NotificationClicked => {
            reveal_strlit("Notification Clicked");
        },
        TelemetryEventDiscriminants::ToggleFindOption => {
            reveal_strlit("Find Option Toggled");
        },
        TelemetryEventDiscriminants::SignUpButtonClicked => {
            reveal_strlit("Sign Up Button Clicked in App");
        },
        TelemetryEventDiscriminants::LoginButtonClicked => {
            reveal_strlit("Log In Button Clicked in App");
        },
        TelemetryEventDiscriminants::LoginLaterButtonClicked => {
            reveal_strlit("Login Later Button Clicked");
        },
        TelemetryEventDiscriminants::LoginLaterConfirmationButtonClicked => {
            reveal_strlit("Login Later Confirmation Button Clicked");
        },
        TelemetryEventDiscriminants::OpenNewSessionFromFilePath => {
            reveal_strlit("New Session From Directory");
        },
        TelemetryEventDiscriminants::OpenTeamFromURI => {
            reveal_strlit("Open Team from URI");
        },
        TelemetryEventDiscriminants::SelectNavigationPaletteItem => {
            reveal_strlit("Select Navigation Palette Item");
        },
        TelemetryEventDiscriminants::SelectCommandPaletteOption => {
            reveal_strlit("Select Command Palette Option");
        },
        TelemetryEventDiscriminants::PaletteSearchOpened => {
            reveal_strlit("Open Palette");
        },
        TelemetryEventDiscriminants::PaletteSearchResultAccepted => {
            reveal_strlit("Command Palette Search Accepted");
        },
        TelemetryEventDiscriminants::PaletteSearchExited => {
            reveal_strlit("Command Palette Search Exited");
        },
        TelemetryEventDiscriminants::AuthCommonQuestionClicked => {
            reveal_strlit("Auth Common Question Clicked in App");
        },
        TelemetryEventDiscriminants::AuthToggleFAQ => {
            reveal_strlit("Auth: Toggle Common Questions");
        },
        TelemetryEventDiscriminants::OpenAuthPrivacySettings => {
            reveal_strlit("Auth: Open Privacy Settings Overlay");
        },
        TelemetryEventDiscriminants::TabRenamed => {
            reveal_strlit("Tab Renamed");
        },
        TelemetryEventDiscriminants::MoveActiveTab => {
            reveal_strlit("Move Active Tab");
        },
        TelemetryEventDiscriminants::MoveTab => {
            reveal_strlit("Move Tab");
        },
        TelemetryEventDiscriminants::DragAndDropTab => {
            reveal_strlit("Drag and Drop Tab");
        },
        TelemetryEventDiscriminants::DragAndDropTabGroup => {
            reveal_strlit("Drag and Drop Tab Group");
        },
        TelemetryEventDiscriminants::TabOperations => {
            reveal_strlit("Tab Operations");
        },
        TelemetryEventDiscriminants::EditedInputBeforePrecmd => {
            reveal_strlit("Edited Input Before Precmd");
        },
        TelemetryEventDiscriminants::TriedToExecuteBeforePrecmd => {
            reveal_strlit("Tried to Execute Before Precmd");
        },
        TelemetryEventDiscriminants::ThinStrokesSettingChanged => {
            reveal_strlit("Thin Strokes Setting Changed");
        },
        TelemetryEventDiscriminants::BookmarkBlockToggled => {
            reveal_strlit("Toggled Bookmark Block");
        },
        TelemetryEventDiscriminants::JumpToBookmark => {
            reveal_strlit("Jumped to Bookmark Block");
        },
        TelemetryEventDiscriminants::JumpToBottomofBlockButtonClicked => {
            reveal_strlit("Jumped to Bottom of Block Button Clicked");
        },
        TelemetryEventDiscriminants::ToggleJumpToBottomofBlockButton => {
            reveal_strlit("Toggle Jump to Bottom of Block Button");
        },
        TelemetryEventDiscriminants::ToggleShowBlockDividers => {
            reveal_strlit("Toggle Show Block Dividers");
        },
        TelemetryEventDiscriminants::OpenLink => {
            reveal_strlit("Opened Link");
        },
        TelemetryEventDiscriminants::OpenChangelogLink => {
            reveal_strlit("Opened Changelog Link");
        },
        TelemetryEventDiscriminants::ShowInFileExplorer => {
            reveal_strlit("Showed File in File Explorer");
        },
        TelemetryEventDiscriminants::CommandXRayTriggered => {
            reveal_strlit("Triggered Command XRay");
        },
        TelemetryEventDiscriminants::OpenLaunchConfigSaveModal => {
            reveal_strlit("Open Save Config Modal");
        },
        TelemetryEventDiscriminants::SaveLaunchConfig => {
            reveal_strlit("Save Launch Config");
        },
        TelemetryEventDiscriminants::OpenLaunchConfigFile => {
            reveal_strlit("Open Launch Config File");
        },
        TelemetryEventDiscriminants::OpenLaunchConfig => {
            reveal_strlit("Open Launch Config");
        },
        TelemetryEventDiscriminants::TeamCreated => {
            reveal_strlit("Team Created");
        },
        TelemetryEventDiscriminants::TeamJoined => {
            reveal_strlit("Team Joined");
        },
        TelemetryEventDiscriminants::TeamLeft => {
            reveal_strlit("Team Left");
        },
        TelemetryEventDiscriminants::ToggleSettingsSync => {
            reveal_strlit("Toggle Settings Sync");
        },
        TelemetryEventDiscriminants::TeamLinkCopied => {
            reveal_strlit("Team Link Copied");
        },
        TelemetryEventDiscriminants::RemovedUserFromTeam => {
            reveal_strlit("Removed user from team");
        },
        TelemetryEventDiscriminants::DeletedWorkflow => {
            reveal_strlit("Deleted Workflow");
        },
        TelemetryEventDiscriminants::DeletedNotebook => {
            reveal_strlit("Deleted Notebook");
        },
        TelemetryEventDiscriminants::ToggleApprovalsModal => {
            reveal_strlit("Toggle Approvals Modal");
        },
        TelemetryEventDiscriminants::SendEmailInvites => {
            reveal_strlit("Sent email invites");
        },
        TelemetryEventDiscriminants::CommandCorrection => {
            reveal_strlit("Command Correction Event");
        },
        TelemetryEventDiscriminants::SetLineHeight => {
            reveal_strlit("Set Line Height");
        },
        TelemetryEventDiscriminants::ResourceCenterOpened => {
            reveal_strlit("Resource Center Opened");
        },
        TelemetryEventDiscriminants::ResourceCenterTipsCompleted => {
            reveal_strlit("Resource Center Tips Completed");
        },
        TelemetryEventDiscriminants::ResourceCenterTipsSkipped => {
            reveal_strlit("Resource Center Tips Skipped");
        },
        TelemetryEventDiscriminants::KeybindingsPageOpened => {
            reveal_strlit("Resource Center Keybindings Page Opened");
        },
        TelemetryEventDiscriminants::CommandSearchOpened => {
            reveal_strlit("Command Search Opened");
        },
        TelemetryEventDiscriminants::CommandSearchExited => {
            reveal_strlit("Command Search Exited");
        },
        TelemetryEventDiscriminants::CommandSearchResultAccepted => {
            reveal_strlit("Command Search Result Accepted");
        },
        TelemetryEventDiscriminants::CommandSearchFilterChanged => {
            reveal_strlit("Command Search Filter Changed");
        },
        TelemetryEventDiscriminants::GlobalSearchOpened => {
            reveal_strlit("Global Search Opened");
        },
        TelemetryEventDiscriminants::GlobalSearchQueryStarted => {
            reveal_strlit("Global Search Query Started");
        },
        TelemetryEventDiscriminants::AICommandSearchOpened => {
            reveal_strlit("AI Command Search opened");
        },
        TelemetryEventDiscriminants::OpenedAltScreenFind => {
            reveal_strlit("Opened alt screen find bar");
        },
        TelemetryEventDiscriminants::UserInitiatedClose => {
            reveal_strlit("User Initiated Closing Something");
        },
        TelemetryEventDiscriminants::QuitModalShown => {
            reveal_strlit("Quit Modal Shown");
        },
        TelemetryEventDiscriminants::QuitModalCancel => {
            reveal_strlit("Quit Modal Cancel Pressed");
        },
        TelemetryEventDiscriminants::QuitModalDisabled => {
            reveal_strlit("Quit Modal Disabled");
        },
        TelemetryEventDiscriminants::UserInitiatedLogOut => {
            reveal_strlit("User Initiated Log Out");
        },
        TelemetryEventDiscriminants::LogOutModalShown => {
            reveal_strlit("Log Out Modal Shown");
        },
        TelemetryEventDiscriminants::LogOutModalCancel => {
            reveal_strlit("Log Out Modal Cancel Pressed");
        },
        TelemetryEventDiscriminants::SetOpacity => {
            reveal_strlit("Set Window Opacity");
        },
        TelemetryEventDiscriminants::SetBlurRadius => {
            reveal_strlit("Set Window Blur Radius");
        },
        TelemetryEventDiscriminants::ToggleDimInactivePanes => {
            reveal_strlit("Toggle Dim Inactive Panes");
        },
        TelemetryEventDiscriminants::InputModeChanged => {
            reveal_strlit("Input Mode Changed");
        },
        TelemetryEventDiscriminants::PtySpawned => {
            reveal_strlit("Pty Spawned");
        },
        TelemetryEventDiscriminants::InitialWorkingDirectoryConfigurationChanged => {
            reveal_strlit("InitialWorkingDirectoryConfigurationChanged");
        },
        TelemetryEventDiscriminants::ToggleFocusPaneOnHover => {
            reveal_strlit("Toggle Focus Pane On Hover");
        },
        TelemetryEventDiscriminants::OpenInputContextMenu => {
            reveal_strlit("OpenInputBoxContextMenu");
        },
        TelemetryEventDiscriminants::InputCutSelectedText => {
            reveal_strlit("InputBoxCutSelectedText");
        },
        TelemetryEventDiscriminants::InputCopySelectedText => {
            reveal_strlit("InputBoxCopySelectedText");
        },
        TelemetryEventDiscriminants::InputSelectAll => {
            reveal_strlit("InputBoxSelectAll");
        },
        TelemetryEventDiscriminants::InputPaste => {
            reveal_strlit("InputBoxPaste");
        },
        TelemetryEventDiscriminants::InputCommandSearch => {
            reveal_strlit("InputBoxCommandSearch");
        },
        TelemetryEventDiscriminants::InputAICommandSearch => {
            reveal_strlit("InputBoxAICommandSearch");
        },
        TelemetryEventDiscriminants::SaveAsWorkflowModal => {
            reveal_strlit("Opened Save As Workflow Modal");
        },
        TelemetryEventDiscriminants::ExperimentTriggered => {
            reveal_strlit("experiments.client.enroll_client");
        },
        TelemetryEventDiscriminants::ToggleSyncAllPanesInAllTabs => {
            reveal_strlit("Toggle Sync Inputs Across All Panes in All Tabs");
        },
        TelemetryEventDiscriminants::ToggleSyncAllPanesInTab => {
            reveal_strlit("Toggle Sync Inputs Across All Panes in Current Tab");
        },
        TelemetryEventDiscriminants::ToggleSameLinePrompt => {
            reveal_strlit("Toggle Same Line Prompt");
        },
        TelemetryEventDiscriminants::ToggleNewWindowsAtCustomSize => {
            reveal_strlit("Toggle New Windows at Custom Size");
        },
        TelemetryEventDiscriminants::SetNewWindowsAtCustomSize => {
            reveal_strlit("Set New Windows at Custom Size");
        },
        TelemetryEventDiscriminants::DisableInputSync => {
            reveal_strlit("Disable Input Sync Inputs");
        },
        TelemetryEventDiscriminants::ToggleTabIndicators => {
            reveal_strlit("Toggle Tab Indicators");
        },
        TelemetryEventDiscriminants::TogglePreserveActiveTabColor => {
            reveal_strlit("Toggle Preserve Active Tab Color");
        },
        TelemetryEventDiscriminants::ShowSubshellBanner => {
            reveal_strlit("Show Subshell Banner");
        },
        TelemetryEventDiscriminants::DeclineSubshellBootstrap => {
            reveal_strlit("Decline Subshell Bootstrap");
        },
        TelemetryEventDiscriminants::TriggerSubshellBootstrap => {
            reveal_strlit("Trigger Subshell Bootstrap");
        },
        TelemetryEventDiscriminants::AddDenylistedSubshellCommand => {
            reveal_strlit("Add Denylisted Subshell Command");
        },
        TelemetryEventDiscriminants::RemoveDenylistedSubshellCommand => {
            reveal_strlit("Remove Denylisted Subshell Command");
        },
        TelemetryEventDiscriminants::AddAddedSubshellCommand => {
            reveal_strlit("Add Added Subshell Command");
        },
        TelemetryEventDiscriminants::RemoveAddedSubshellCommand => {
            reveal_strlit("Remove Added Subshell Command");
        },
        TelemetryEventDiscriminants::ReceivedSubshellRcFileDcs => {
            reveal_strlit("Received Subshell RC File DCS");
        },
        TelemetryEventDiscriminants::AddDenylistedSshTmuxWrapperHost => {
            reveal_strlit("Add Denylisted SSH Tmux Wrapper Host");
        },
        TelemetryEventDiscriminants::RemoveDenylistedSshTmuxWrapperHost => {
            reveal_strlit("Remove Denylisted SSH Tmux Wrapper Host");
        },
        TelemetryEventDiscriminants::ToggleSshTmuxWrapper => {
            reveal_strlit("Toggle SSH Tmux Wrapper");
        },
        TelemetryEventDiscriminants::ToggleSshRiftification => {
            reveal_strlit("Toggle SSH Riftification");
        },
        TelemetryEventDiscriminants::SetSshExtensionInstallMode => {
            reveal_strlit("Set SSH Extension Install Mode");
        },
        TelemetryEventDiscriminants::SshInteractiveSessionDetected => {
            reveal_strlit("SSH Interactive Session Detected");
        },
        TelemetryEventDiscriminants::SshTmuxRiftifyBannerDisplayed => {
            reveal_strlit("Show Riftify SSH Banner");
        },
        TelemetryEventDiscriminants::SshTmuxRiftifyBlockAccepted => {
            reveal_strlit("SSH Tmux Riftify Block Accepted");
        },
        TelemetryEventDiscriminants::SshTmuxRiftifyBlockDismissed => {
            reveal_strlit("SSH Tmux Riftify Block Dismissed");
        },
        TelemetryEventDiscriminants::RiftifyFooterShown => {
            reveal_strlit("Riftify Footer Shown");
        },
        TelemetryEventDiscriminants::RiftifyFooterAcceptedRiftify => {
            reveal_strlit("Riftify Footer Accepted Riftify");
        },
        TelemetryEventDiscriminants::SshTmuxRiftificationSuccess => {
            reveal_strlit("SSH Tmux Riftification Succeeded");
        },
        TelemetryEventDiscriminants::SshTmuxRiftificationErrorBlock => {
            reveal_strlit("SSH Tmux Riftification Error Block");
        },
        TelemetryEventDiscriminants::SshInstallTmuxBlockDisplayed => {
            reveal_strlit("SSH Install Tmux Block Displayed");
        },
        TelemetryEventDiscriminants::SshInstallTmuxBlockAccepted => {
            reveal_strlit("SSH Install Tmux Block Accepted");
        },
        TelemetryEventDiscriminants::SshInstallTmuxBlockDismissed => {
            reveal_strlit("SSH Install Tmux Block Dismissed");
        },
        TelemetryEventDiscriminants::ShowAliasExpansionBanner => {
            reveal_strlit("Show Alias Expansion Banner");
        },
        TelemetryEventDiscriminants::EnableAliasExpansionFromBanner => {
            reveal_strlit("Enable Alias Expansion From Banner");
        },
        TelemetryEventDiscriminants::DismissAliasExpansionBanner => {
            reveal_strlit("Dismiss Alias Expansion Banner");
        },
        TelemetryEventDiscriminants::ShowVimKeybindingsBanner => {
            reveal_strlit("Vim Keybindings Banner Displayed");
        },
        TelemetryEventDiscriminants::EnableVimKeybindingsFromBanner => {
            reveal_strlit("Vim Keybindings Enabled from Banner");
        },
        TelemetryEventDiscriminants::DismissVimKeybindingsBanner => {
            reveal_strlit("Vim Keybindings Banner Dismissed");
        },
        TelemetryEventDiscriminants::InitiateReauth => {
            reveal_strlit("Initiate Reauth");
        },
        TelemetryEventDiscriminants::InitiateAnonymousUserSignup => {
            reveal_strlit("Anonymous User Initiated Signup");
        },
        TelemetryEventDiscriminants::AnonymousUserExpirationLockout => {
            reveal_strlit("Anonymous User Expiration Lockout");
        },
        TelemetryEventDiscriminants::AnonymousUserLinkedFromBrowser => {
            reveal_strlit("Anonymous User Linked from Browser");
        },
        TelemetryEventDiscriminants::AnonymousUserAttemptLoginGatedFeature => {
            reveal_strlit("Anonymous User Attempted Login-Gated Feature");
        },
        TelemetryEventDiscriminants::AnonymousUserHitCloudObjectLimit => {
            reveal_strlit("Anonymous User Hit Cloud Object Limit");
        },
        TelemetryEventDiscriminants::NeedsReauth => {
            reveal_strlit("Needs Reauth");
        },
        TelemetryEventDiscriminants::DriveOpened => {
            reveal_strlit("Rift Drive Opened");
        },
        TelemetryEventDiscriminants::ToggleSecretRedaction => {
            reveal_strlit("Toggle Secret Redaction");
        },
        TelemetryEventDiscriminants::CustomSecretRegexAdded => {
            reveal_strlit("Custom Secret Regex Added");
        },
        TelemetryEventDiscriminants::ToggleObfuscateSecret => {
            reveal_strlit("Toggle Obfuscate Secret");
        },
        TelemetryEventDiscriminants::CopySecret => {
            reveal_strlit("Copy Obfuscated Secret");
        },
        TelemetryEventDiscriminants::AutoGenerateMetadataSuccess => {
            reveal_strlit("Generate Metadata For Workflow Success");
        },
        TelemetryEventDiscriminants::AutoGenerateMetadataError => {
            reveal_strlit("Generate Metadata For Workflow Error");
        },
        TelemetryEventDiscriminants::UndoClose => {
            reveal_strlit("Undo Close");
        },
        TelemetryEventDiscriminants::PtyThroughput => {
            reveal_strlit("PTY Throughput");
        },
        TelemetryEventDiscriminants::DriveSharingOnboardingBlockShown => {
            reveal_strlit("Rift Drive Sharing onboarding block shown");
        },
        TelemetryEventDiscriminants::CommandFileRun => {
            reveal_strlit("Command File Run");
        },
        TelemetryEventDiscriminants::PageUpDownInEditorPressed => {
            reveal_strlit("Page Up/Down In Editor Pressed");
        },
        TelemetryEventDiscriminants::JoinedSharedSession => {
            reveal_strlit("Joined Shared Session");
        },
        TelemetryEventDiscriminants::SharedSessionModalUpgradePressed => {
            reveal_strlit("Shared Session Modal Upgrade Pressed");
        },
        TelemetryEventDiscriminants::SharerCancelledGrantRole => {
            reveal_strlit("Sharer Cancelled Grant Role");
        },
        TelemetryEventDiscriminants::SharerGrantModalDontShowAgain => {
            reveal_strlit("Don't Show Sharer Grant Modal Again");
        },
        TelemetryEventDiscriminants::JumpToSharedSessionParticipant => {
            reveal_strlit("Jumped to Shared Session Participant");
        },
        TelemetryEventDiscriminants::UnsupportedShell => {
            reveal_strlit("Unsupported Shell");
        },
        TelemetryEventDiscriminants::LogOut => {
            reveal_strlit("Log Out");
        },
        TelemetryEventDiscriminants::SettingsImportInitiated => {
            reveal_strlit("Settings Import Initiated");
        },
        TelemetryEventDiscriminants::InviteTeammates => {
            reveal_strlit("Invited Teammates");
        },
        TelemetryEventDiscriminants::OpenAndRiftifyDockerSubshell => {
            reveal_strlit("OpenAndRiftifyDockerSubshell");
        },
        TelemetryEventDiscriminants::UpdateBlockFilterQuery => {
            reveal_strlit("Update Block Filter Query");
        },
        TelemetryEventDiscriminants::UpdateBlockFilterQueryContextLines => {
            reveal_strlit("Update Block Filter Query With Context Lines");
        },
        TelemetryEventDiscriminants::ToggleBlockFilterQuery => {
            reveal_strlit("Toggle Block Filter Query");
        },
        TelemetryEventDiscriminants::ToggleBlockFilterCaseSensitivity => {
            reveal_strlit("Toggle Block Filter Case Sensitivity");
        },
        TelemetryEventDiscriminants::ToggleBlockFilterRegex => {
            reveal_strlit("Toggle Block Filter Regex");
        },
        TelemetryEventDiscriminants::ToggleBlockFilterInvert => {
            reveal_strlit("Toggle Block Filter Invert");
        },
        TelemetryEventDiscriminants::BlockFilterToolbeltButtonClicked => {
            reveal_strlit("Block Filter Toolbelt Button Clicked");
        },
        TelemetryEventDiscriminants::ToggleSnackbarInActivePane => {
            reveal_strlit("Toggle Sticky Command Header in Active Pane");
        },
        TelemetryEventDiscriminants::PaneDragInitiated => {
            reveal_strlit("Pane Drag Inititiated");
        },
        TelemetryEventDiscriminants::PaneDropped => {
            reveal_strlit("Pane Drag Ended");
        },
        TelemetryEventDiscriminants::ObjectLinkCopied => {
            reveal_strlit("Object Link Copied");
        },
        TelemetryEventDiscriminants::FileTreeToggled => {
            reveal_strlit("File Tree Toggled");
        },
        TelemetryEventDiscriminants::FileTreeItemAttachedAsContext => {
            reveal_strlit("FileTree.AttachedAsContext");
        },
        TelemetryEventDiscriminants::CodeSelectionAddedAsContext => {
            reveal_strlit("CodeView.SelectionAddedAsContext");
        },
        TelemetryEventDiscriminants::FileTreeItemCreated => {
            reveal_strlit("FileTree.ItemCreated");
        },
        TelemetryEventDiscriminants::PromptSuggestionShown => {
            reveal_strlit("Agent Mode Query Suggestions Banner Shown");
        },
        TelemetryEventDiscriminants::SuggestedCodeDiffFailed => {
            reveal_strlit("Suggested Code Diff Failed");
        },
        TelemetryEventDiscriminants::PromptSuggestionAccepted => {
            reveal_strlit("Agent Mode Query Suggestion Accepted");
        },
        TelemetryEventDiscriminants::StaticPromptSuggestionsBannerShown => {
            reveal_strlit("Static Prompt Suggestions Banner Shown");
        },
        TelemetryEventDiscriminants::StaticPromptSuggestionAccepted => {
            reveal_strlit("Static Prompt Suggestion Accepted");
        },
        TelemetryEventDiscriminants::ToggleIntelligentAutosuggestionsSetting => {
            reveal_strlit("Toggle Intelligent Autosuggestions Setting");
        },
        TelemetryEventDiscriminants::ToggleGlobalAI => {
            reveal_strlit("Toggle Global AI Enablement");
        },
        TelemetryEventDiscriminants::ToggleCodebaseContext => {
            reveal_strlit("Toggle Agent Mode Codebase Context");
        },
        TelemetryEventDiscriminants::ToggleAutoIndexing => {
            reveal_strlit("Toggle Codebase Context Autoindexing");
        },
        TelemetryEventDiscriminants::ActiveIndexedReposChanged => {
            reveal_strlit("Active Indexed Repos Changed");
        },
        TelemetryEventDiscriminants::ToggleActiveAI => {
            reveal_strlit("Toggle Active AI Enablement");
        },
        TelemetryEventDiscriminants::TogglePromptSuggestionsSetting => {
            reveal_strlit("Toggle Agent Mode Query Suggestions Setting");
        },
        TelemetryEventDiscriminants::ToggleCodeSuggestionsSetting => {
            reveal_strlit("Toggle Code Suggestions Setting");
        },
        TelemetryEventDiscriminants::ToggleNaturalLanguageAutosuggestionsSetting => {
            reveal_strlit("Toggle Natural Language Autosuggestions Setting");
        },
        TelemetryEventDiscriminants::ToggleSharedBlockTitleGenerationSetting => {
            reveal_strlit("Toggle SharedBlock Title Generation");
        },
        TelemetryEventDiscriminants::ToggleGitOperationsAutogenSetting => {
            reveal_strlit("Toggle Git Operations Autogen Setting");
        },
        TelemetryEventDiscriminants::ToggleVoiceInputSetting => {
            reveal_strlit("Toggle Voice Input Setting");
        },
        TelemetryEventDiscriminants::TierLimitHit => {
            reveal_strlit("Tier Limit Hit");
        },
        TelemetryEventDiscriminants::SharedObjectLimitHitBannerViewPlansButtonClicked => {
            reveal_strlit("Shared Object Limit Hit Banner View Plans Button Clicked");
        },
        TelemetryEventDiscriminants::ResourceUsageStats => {
            reveal_strlit("perf_metrics.resource_usage");
        },
        TelemetryEventDiscriminants::MemoryUsageStats => {
            reveal_strlit("perf_metrics.memory_usage");
        },
        TelemetryEventDiscriminants::MemoryUsageHigh => {
            reveal_strlit("perf_metrics.memory_usage_high");
        },
        TelemetryEventDiscriminants::CompletedSettingsImport => {
            reveal_strlit("Completed Settings Import");
        },
        TelemetryEventDiscriminants::SettingsImportConfigFocused => {
            reveal_strlit("Focused Config in Settings Import");
        },
        TelemetryEventDiscriminants::SettingsImportResetButtonClicked => {
            reveal_strlit("Clicked Reset to Defaults Button in Settings Import");
        },
        TelemetryEventDiscriminants::SettingsImportConfigParsed => {
            reveal_strlit("Parsed Config in Settings Import");
        },
        TelemetryEventDiscriminants::ITermMultipleHotkeys => {
            reveal_strlit("ITerm Profile has Multiple Hotkeys");
        },
        TelemetryEventDiscriminants::UserMenuUpgradeClicked => {
            reveal_strlit("User Menu Upgrade Clicked");
        },
        TelemetryEventDiscriminants::ToggleWorkspaceDecorationVisibility => {
            reveal_strlit("Toggled Tab Bar Visibility");
        },
        TelemetryEventDiscriminants::UpdateAltScreenPaddingMode => {
            reveal_strlit("Updated Alt Screen Padding Mode");
        },
        TelemetryEventDiscriminants::AddTabWithShell => {
            reveal_strlit("Add Tab With Shell");
        },
        TelemetryEventDiscriminants::ToggleLigatureRendering => {
            reveal_strlit("Toggle Ligature Rendering");
        },
        TelemetryEventDiscriminants::RepoOutlineConstructionSuccess => {
            reveal_strlit("Repo Outline Built Successfully");
        },
        TelemetryEventDiscriminants::RepoOutlineConstructionFailed => {
            reveal_strlit("Repo Outline Construction Failed");
        },
        TelemetryEventDiscriminants::KnowledgePaneOpened => {
            reveal_strlit("Knowledge Pane Opened");
        },
        TelemetryEventDiscriminants::CodePanelsFileOpened => {
            reveal_strlit("CodePanels.FileOpened");
        },
        TelemetryEventDiscriminants::PreviewPanePromoted => {
            reveal_strlit("Preview Pane Promoted");
        },
        TelemetryEventDiscriminants::WSLRegistryError => {
            reveal_strlit("WSL Distribution Registry Error");
        },
        TelemetryEventDiscriminants::AutoupdateUnableToCloseApplications => {
            reveal_strlit("Windows Autoupdate: Setup Unable to Close Applications");
        },
        TelemetryEventDiscriminants::AutoupdateFileInUse => {
            reveal_strlit("Windows Autoupdate: File In Use Error");
        },
        TelemetryEventDiscriminants::AutoupdateMutexTimeout => {
            reveal_strlit("Windows Autoupdate: Mutex Timeout");
        },
        TelemetryEventDiscriminants::AutoupdateForcekillFailed => {
            reveal_strlit("Windows Autoupdate: Forcekill Failed");
        },
        TelemetryEventDiscriminants::AutoupdateMinidumpCleanupFailed => {
            reveal_strlit("Windows Autoupdate: Minidump Cleanup Failed");
        },
        TelemetryEventDiscriminants::ImageReceived => {
            reveal_strlit("Image Received");
        },
        TelemetryEventDiscriminants::GrepToolSucceeded => {
            reveal_strlit("AgentMode.Grep.Succeeded");
        },
        TelemetryEventDiscriminants::FileGlobToolSucceeded => {
            reveal_strlit("AgentMode.FileGlob.Succeeded");
        },
        TelemetryEventDiscriminants::ShellTerminatedPrematurely => {
            reveal_strlit("Shell Terminated Prematurely");
        },
        TelemetryEventDiscriminants::InputUXModeChanged => {
            reveal_strlit("Input.InputUXModeChanged");
        },
        TelemetryEventDiscriminants::ContextChipInteracted => {
            reveal_strlit("Input.ContextChipInteracted");
        },
        TelemetryEventDiscriminants::TabCloseButtonPositionUpdated => {
            reveal_strlit("Update Tab Close Button Position");
        },
        TelemetryEventDiscriminants::AIExecutionProfileCreated => {
            reveal_strlit("AI Execution Profile Created");
        },
        TelemetryEventDiscriminants::AIExecutionProfileDeleted => {
            reveal_strlit("AI Execution Profile Deleted");
        },
        TelemetryEventDiscriminants::AIExecutionProfileSettingUpdated => {
            reveal_strlit("AI Execution Profile: Setting Updated");
        },
        TelemetryEventDiscriminants::AIExecutionProfileAddedToAllowlist => {
            reveal_strlit("AI Execution Profile: Added To Allowlist");
        },
        TelemetryEventDiscriminants::AIExecutionProfileAddedToDenylist => {
            reveal_strlit("AI Execution Profile: Added To Denylist");
        },
        TelemetryEventDiscriminants::AIExecutionProfileRemovedFromAllowlist => {
            reveal_strlit("AI Execution Profile: Removed From Allowlist");
        },
        TelemetryEventDiscriminants::AIExecutionProfileRemovedFromDenylist => {
            reveal_strlit("AI Execution Profile: Removed From Denylist");
        },
        TelemetryEventDiscriminants::AIExecutionProfileModelSelected => {
            reveal_strlit("AI Execution Profile: Model Selected");
        },
        TelemetryEventDiscriminants::AIExecutionProfileContextWindowSelected => {
            reveal_strlit("AI Execution Profile: Context Window Selected");
        },
        TelemetryEventDiscriminants::OpenSlashMenu => {
            reveal_strlit("Open Slash Menu");
        },
        TelemetryEventDiscriminants::SlashCommandAccepted => {
            reveal_strlit("Slash Command Accepted");
        },
        TelemetryEventDiscriminants::CreateProjectPromptSubmitted => {
            reveal_strlit("Create Project Prompt Submitted");
        },
        TelemetryEventDiscriminants::CreateProjectPromptSubmittedContent => {
            reveal_strlit("Create Project Prompt Submitted Content");
        },
        TelemetryEventDiscriminants::CloneRepoPromptSubmitted => {
            reveal_strlit("Clone Repo Prompt Submitted");
        },
        TelemetryEventDiscriminants::GetStartedSkipToTerminal => {
            reveal_strlit("Get Started Skip to Terminal");
        },
        TelemetryEventDiscriminants::RecentMenuItemSelected => {
            reveal_strlit("Recent Menu Item Selected");
        },
        TelemetryEventDiscriminants::OpenRepoFolderSubmitted => {
            reveal_strlit("Open Repo Folder Submitted");
        },
        TelemetryEventDiscriminants::OutOfCreditsBannerClosed => {
            reveal_strlit("revenue.OutOfCreditsBannerClosed");
        },
        TelemetryEventDiscriminants::AutoReloadModalClosed => {
            reveal_strlit("revenue.AutoReloadModalClosed");
        },
        TelemetryEventDiscriminants::AutoReloadToggledFromBillingSettings => {
            reveal_strlit("revenue.AutoReloadToggledFromBillingSettings");
        },
        TelemetryEventDiscriminants::DetectedIsolationPlatform => {
            reveal_strlit("Isolation.DetectedIsolationPlatform");
        },
        TelemetryEventDiscriminants::LinearIssueLinkOpened => {
            reveal_strlit("Linear.IssueLinkOpened");
        },
        TelemetryEventDiscriminants::FreeTierLimitHitInterstitialDisplayed => {
            reveal_strlit("FreeTierLimitHitInterstitial.Displayed");
        },
        TelemetryEventDiscriminants::FreeTierLimitHitInterstitialUpgradeButtonClicked => {
            reveal_strlit("FreeTierLimitHitInterstitial.UpgradeButtonClicked");
        },
        TelemetryEventDiscriminants::FreeTierLimitHitInterstitialClosed => {
            reveal_strlit("FreeTierLimitHitInterstitial.Closed");
        },
        TelemetryEventDiscriminants::QueuedPromptPanelCollapseToggled => {
            reveal_strlit("QueuedPrompt.PanelCollapseToggled");
        },
    }
}

/// Different kinds of events have different names, so the listing of the
/// enabled events keyed by name loses none of them.
pub proof fn lemma_event_names_distinct(a: TelemetryEventDiscriminants, b: TelemetryEventDiscriminants)
    requires
        a != b,
    ensures
        telemetry_event_name(a) != telemetry_event_name(b),
{
    lemma_name_identifies_kind(a);
    lemma_name_identifies_kind(b);
}

} // verus!
