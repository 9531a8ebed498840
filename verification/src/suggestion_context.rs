//! The context handed to the local command-suggestion model: the recent
//! command history and the partial input, converted from the terminal's own
//! records.

use vstd::prelude::*;

verus! {

/// Where and how a command of the history ran, as the terminal records it.
#[derive(Debug, Clone)]
pub struct AppCommandContext {
    pub pwd: Option<String>,
    pub git_branch: Option<String>,
    pub exit_code: i32,
}

/// A command of the history with its output, as the terminal records it.
#[derive(Debug, Clone)]
pub struct AppContextMessageInput {
    pub input: String,
    pub output: String,
    pub context: AppCommandContext,
}

/// What the terminal knows when it asks for the next command.
#[derive(Debug, Clone)]
pub struct NextCommandContext {
    pub context_messages: Vec<AppContextMessageInput>,
}

/// Where and how a command ran, as the suggestion model takes it.
#[derive(Debug, Clone)]
pub struct CommandContext {
    pub pwd: Option<String>,
    pub git_branch: Option<String>,
    pub exit_code: i32,
}

/// A command of the history, as the suggestion model takes it.
#[derive(Debug, Clone)]
pub struct ContextMessageInput {
    pub input: String,
    pub output: String,
    pub context: CommandContext,
}

/// Everything the suggestion model is given.
#[derive(Debug, Clone)]
pub struct RiftContext {
    pub history: Vec<ContextMessageInput>,
    pub current_input: String,
    pub shell: Option<String>,
}

/// Whether `m` carries exactly the record `a`.
pub open spec fn same_message(m: ContextMessageInput, a: AppContextMessageInput) -> bool {
    &&& m.input@ == a.input@
    &&& m.output@ == a.output@
    &&& m.context.pwd == a.context.pwd
    &&& m.context.git_branch == a.context.git_branch
    &&& m.context.exit_code == a.context.exit_code
}

fn clone_optional(s: &Option<String>) -> (r: Option<String>)
    ensures
        r == *s,
{
    match s {
        Some(v) => Some(v.clone()),
        None => None,
    }
}

/// The history in the model's terms, one entry per record, in order.
pub fn map_history(messages: &Vec<AppContextMessageInput>) -> (r: Vec<ContextMessageInput>)
    ensures
        r@.len() == messages@.len(),
        forall|i: int| 0 <= i < r@.len() ==> same_message(#[trigger] r@[i], messages@[i]),
{
    let mut r: Vec<ContextMessageInput> = Vec::new();
    let mut i: usize = 0;
    let n = messages.len();
    while i < n
        invariant
            0 <= i <= n,
            n == messages@.len(),
            r@.len() == i,
            forall|j: int| 0 <= j < i ==> same_message(#[trigger] r@[j], messages@[j]),
        decreases n - i,
    {
        let m = &messages[i];
        r.push(
            ContextMessageInput {
                input: m.input.clone(),
                output: m.output.clone(),
                context: CommandContext {
                    pwd: clone_optional(&m.context.pwd),
                    git_branch: clone_optional(&m.context.git_branch),
                    exit_code: m.context.exit_code,
                },
            },
        );
        i = i + 1;
    }
    r
}

/// The model's context for the terminal's context and the partial input
/// `current_input`; no shell is named.
pub fn to_rift_context(ctx: &NextCommandContext, current_input: &str) -> (r: RiftContext)
    ensures
        r.history@.len() == ctx.context_messages@.len(),
        forall|i: int|
            0 <= i < r.history@.len() ==> same_message(
                #[trigger] r.history@[i],
                ctx.context_messages@[i],
            ),
        r.current_input@ == current_input@,
        r.shell is None,
{
    RiftContext {
        history: map_history(&ctx.context_messages),
        current_input: String::from_str(current_input),
        shell: None,
    }
}

} // verus!
