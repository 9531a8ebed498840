use rift_app::suggestion_context::{
    map_history, to_rift_context, AppCommandContext as AppCmdCtx,
    AppContextMessageInput as AppMsg, NextCommandContext,
};

#[test]
fn maps_app_messages_into_rift_history() {
    let msgs = vec![AppMsg {
        input: "ls".into(),
        output: "a".into(),
        context: AppCmdCtx {
            pwd: Some("/tmp".into()),
            git_branch: None,
            exit_code: 0,
        },
    }];
    let history = map_history(&msgs);
    assert_eq!(history.len(), 1);
    assert_eq!(history[0].input, "ls");
    assert_eq!(history[0].context.pwd.as_deref(), Some("/tmp"));
    assert_eq!(history[0].context.exit_code, 0);
}

#[test]
fn rift_context_keeps_history_order_and_partial_input() {
    let msg = |input: &str, code: i32| AppMsg {
        input: input.into(),
        output: String::new(),
        context: AppCmdCtx { pwd: None, git_branch: Some("main".into()), exit_code: code },
    };
    let ctx = NextCommandContext { context_messages: vec![msg("cd src", 0), msg("cargo t", 101)] };
    let rift = to_rift_context(&ctx, "git st");
    assert_eq!(rift.current_input, "git st");
    assert!(rift.shell.is_none());
    assert_eq!(rift.history.len(), 2);
    assert_eq!(rift.history[0].input, "cd src");
    assert_eq!(rift.history[1].context.exit_code, 101);
    assert_eq!(rift.history[1].context.git_branch.as_deref(), Some("main"));
}
