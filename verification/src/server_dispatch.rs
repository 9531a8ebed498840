//! How the remote-server daemon dispatches a message from a proxy.
//!
//! Requests are host-scoped (the response may fail over to another
//! connection) or session-scoped (the response belongs to the originating
//! connection); notifications never get a response. A message whose variant
//! is missing or not supported is answered with an `InvalidRequest` error,
//! except a notification, which is only ignored.

use vstd::prelude::*;

verus! {

/// The host-scoped requests, by kind.
#[derive(Clone, Copy, Debug, PartialEq, Eq, Structural)]
pub enum HostScopedRequestKind {
    WriteFile,
    DeleteFile,
    GetBranches,
    /// A variant this daemon does not support.
    Unsupported,
}

/// The session-scoped requests, by kind.
#[derive(Clone, Copy, Debug, PartialEq, Eq, Structural)]
pub enum SessionScopedRequestKind {
    Initialize,
    NavigatedToDirectory,
    LoadRepoMetadataDirectory,
    RunCommand,
    /// A variant this daemon does not support.
    Unsupported,
}

/// The notifications, by kind.
#[derive(Clone, Copy, Debug, PartialEq, Eq, Structural)]
pub enum NotificationKind {
    Abort,
    Authenticate,
    UpdatePreferences,
    SessionBootstrapped,
    CloseBuffer,
    /// A variant this daemon does not support.
    Unsupported,
}

/// A message from a proxy, by kind; `None` stands for an unset inner
/// variant.
#[derive(Clone, Copy, Debug, PartialEq, Eq, Structural)]
pub enum ClientMessageKind {
    HostScoped(Option<HostScopedRequestKind>),
    SessionScoped(Option<SessionScopedRequestKind>),
    Notification(Option<NotificationKind>),
    /// The message has no variant set.
    Missing,
}

/// The handler a request goes to.
#[derive(Clone, Copy, Debug, PartialEq, Eq, Structural)]
pub enum RequestHandler {
    WriteFile,
    DeleteFile,
    GetBranches,
    Initialize,
    NavigatedToDirectory,
    LoadRepoMetadataDirectory,
    RunCommand,
}

/// What the daemon does with a message.
#[derive(Clone, Debug, PartialEq)]
pub enum Dispatch {
    /// Run `handler`; a host-scoped request is tracked for failover.
    Handle { handler: RequestHandler, host_scoped: bool },
    /// Answer at once with an `InvalidRequest` error carrying `message`.
    InvalidRequest { message: String },
    /// Handle the notification; no response is sent.
    Notify(NotificationKind),
    /// Drop the notification without a response.
    Ignore,
}

/// The mathematical form of a [`Dispatch`].
pub enum DispatchSpec {
    Handle { handler: RequestHandler, host_scoped: bool },
    InvalidRequest { message: Seq<char> },
    Notify(NotificationKind),
    Ignore,
}

impl View for Dispatch {
    type V = DispatchSpec;

    open spec fn view(&self) -> DispatchSpec {
        match self {
            Dispatch::Handle { handler, host_scoped } => DispatchSpec::Handle {
                handler: *handler,
                host_scoped: *host_scoped,
            },
            Dispatch::InvalidRequest { message } => DispatchSpec::InvalidRequest {
                message: message@,
            },
            Dispatch::Notify(k) => DispatchSpec::Notify(*k),
            Dispatch::Ignore => DispatchSpec::Ignore,
        }
    }
}

/// What the daemon does with a message of kind `m`.
pub open spec fn dispatch_spec(m: ClientMessageKind) -> DispatchSpec {
    match m {
        ClientMessageKind::HostScoped(k) => match k {
            Some(HostScopedRequestKind::WriteFile) => DispatchSpec::Handle {
                handler: RequestHandler::WriteFile,
                host_scoped: true,
            },
            Some(HostScopedRequestKind::DeleteFile) => DispatchSpec::Handle {
                handler: RequestHandler::DeleteFile,
                host_scoped: true,
            },
            Some(HostScopedRequestKind::GetBranches) => DispatchSpec::Handle {
                handler: RequestHandler::GetBranches,
                host_scoped: true,
            },
            None => DispatchSpec::InvalidRequest {
                message: "HostScopedRequest had no message variant set"@,
            },
            Some(HostScopedRequestKind::Unsupported) => DispatchSpec::InvalidRequest {
                message: "HostScopedRequest message variant is not supported"@,
            },
        },
        ClientMessageKind::SessionScoped(k) => match k {
            Some(SessionScopedRequestKind::Initialize) => DispatchSpec::Handle {
                handler: RequestHandler::Initialize,
                host_scoped: false,
            },
            Some(SessionScopedRequestKind::NavigatedToDirectory) => DispatchSpec::Handle {
                handler: RequestHandler::NavigatedToDirectory,
                host_scoped: false,
            },
            Some(SessionScopedRequestKind::LoadRepoMetadataDirectory) => DispatchSpec::Handle {
                handler: RequestHandler::LoadRepoMetadataDirectory,
                host_scoped: false,
            },
            Some(SessionScopedRequestKind::RunCommand) => DispatchSpec::Handle {
                handler: RequestHandler::RunCommand,
                host_scoped: false,
            },
            None => DispatchSpec::InvalidRequest {
                message: "SessionScopedRequest had no message variant set"@,
            },
            Some(SessionScopedRequestKind::Unsupported) => DispatchSpec::InvalidRequest {
                message: "SessionScopedRequest message variant is not supported"@,
            },
        },
        ClientMessageKind::Notification(k) => match k {
            Some(NotificationKind::Unsupported) => DispatchSpec::Ignore,
            Some(n) => DispatchSpec::Notify(n),
            None => DispatchSpec::Ignore,
        },
        ClientMessageKind::Missing => DispatchSpec::InvalidRequest {
            message: "ClientMessage had no message variant set"@,
        },
    }
}

fn invalid(message: &str) -> (r: Dispatch)
    ensures
        r@ == (DispatchSpec::InvalidRequest { message: message@ }),
{
    Dispatch::InvalidRequest { message: String::from_str(message) }
}

/// Decides what the daemon does with a message of kind `m`.
pub fn dispatch(m: ClientMessageKind) -> (r: Dispatch)
    ensures
        r@ == dispatch_spec(m),
{
    match m {
        ClientMessageKind::HostScoped(k) => match k {
            Some(HostScopedRequestKind::WriteFile) => Dispatch::Handle {
                handler: RequestHandler::WriteFile,
                host_scoped: true,
            },
            Some(HostScopedRequestKind::DeleteFile) => Dispatch::Handle {
                handler: RequestHandler::DeleteFile,
                host_scoped: true,
            },
            Some(HostScopedRequestKind::GetBranches) => Dispatch::Handle {
                handler: RequestHandler::GetBranches,
                host_scoped: true,
            },
            None => invalid("HostScopedRequest had no message variant set"),
            Some(HostScopedRequestKind::Unsupported) => invalid(
                "HostScopedRequest message variant is not supported",
            ),
        },
        ClientMessageKind::SessionScoped(k) => match k {
            Some(SessionScopedRequestKind::Initialize) => Dispatch::Handle {
                handler: RequestHandler::Initialize,
                host_scoped: false,
            },
            Some(SessionScopedRequestKind::NavigatedToDirectory) => Dispatch::Handle {
                handler: RequestHandler::NavigatedToDirectory,
                host_scoped: false,
            },
            Some(SessionScopedRequestKind::LoadRepoMetadataDirectory) => Dispatch::Handle {
                handler: RequestHandler::LoadRepoMetadataDirectory,
                host_scoped: false,
            },
            Some(SessionScopedRequestKind::RunCommand) => Dispatch::Handle {
                handler: RequestHandler::RunCommand,
                host_scoped: false,
            },
            None => invalid("SessionScopedRequest had no message variant set"),
            Some(SessionScopedRequestKind::Unsupported) => invalid(
                "SessionScopedRequest message variant is not supported",
            ),
        },
        ClientMessageKind::Notification(k) => match k {
            Some(NotificationKind::Unsupported) => Dispatch::Ignore,
            Some(n) => Dispatch::Notify(n),
            None => Dispatch::Ignore,
        },
        ClientMessageKind::Missing => invalid("ClientMessage had no message variant set"),
    }
}

/// Only host-scoped requests are tracked for failover delivery, and no
/// notification is ever answered.
pub proof fn lemma_dispatch_scopes(m: ClientMessageKind)
    ensures
        dispatch_spec(m) matches DispatchSpec::Handle { host_scoped, .. } ==> (host_scoped
            <==> m is HostScoped),
        m is Notification ==> (dispatch_spec(m) is Notify || dispatch_spec(m) is Ignore),
        !(m is Notification) ==> (dispatch_spec(m) is Handle || dispatch_spec(m) is InvalidRequest),
{
}

/// Every supported host-scoped request goes to its own handler and is
/// tracked for failover: writes to the write handler, deletes to the delete
/// handler, branch listings to the branch handler.
pub proof fn lemma_host_scoped_requests_are_handled(k: HostScopedRequestKind)
    requires
        k != HostScopedRequestKind::Unsupported,
    ensures
        dispatch_spec(ClientMessageKind::HostScoped(Some(k))) == (DispatchSpec::Handle {
            handler: match k {
                HostScopedRequestKind::WriteFile => RequestHandler::WriteFile,
                HostScopedRequestKind::DeleteFile => RequestHandler::DeleteFile,
                _ => RequestHandler::GetBranches,
            },
            host_scoped: true,
        }),
{
}

/// Every supported session-scoped request goes to its own handler, and its
/// response is not failed over.
pub proof fn lemma_session_scoped_requests_are_handled(k: SessionScopedRequestKind)
    requires
        k != SessionScopedRequestKind::Unsupported,
    ensures
        dispatch_spec(ClientMessageKind::SessionScoped(Some(k))) == (DispatchSpec::Handle {
            handler: match k {
                SessionScopedRequestKind::Initialize => RequestHandler::Initialize,
                SessionScopedRequestKind::NavigatedToDirectory => RequestHandler::NavigatedToDirectory,
                SessionScopedRequestKind::LoadRepoMetadataDirectory => {
                    RequestHandler::LoadRepoMetadataDirectory
                },
                _ => RequestHandler::RunCommand,
            },
            host_scoped: false,
        }),
{
}

/// Two different supported requests never go to the same handler, and only
/// a request with a missing or unsupported variant is rejected.
pub proof fn lemma_requests_reach_distinct_handlers(m1: ClientMessageKind, m2: ClientMessageKind)
    ensures
        (dispatch_spec(m1) matches DispatchSpec::Handle { handler: h1, .. } && dispatch_spec(m2) matches DispatchSpec::Handle { handler: h2, .. } && h1 == h2) ==> m1 == m2,
        dispatch_spec(m1) is InvalidRequest <==> (m1 is Missing || m1 == ClientMessageKind::HostScoped(None)
            || m1 == ClientMessageKind::HostScoped(Some(HostScopedRequestKind::Unsupported))
            || m1 == ClientMessageKind::SessionScoped(None)
            || m1 == ClientMessageKind::SessionScoped(Some(SessionScopedRequestKind::Unsupported))),
{
}

/// The most branches a `GetBranches` response lists.
pub const MAX_BRANCH_COUNT_CAP: usize = 500;

/// How long the daemon waits without any connection before it shuts down,
/// in seconds.
pub const GRACE_PERIOD_SECS: u64 = 600;

/// The number of branches to list for a requested maximum: the request's
/// maximum, capped; no limit when the request sets none.
pub fn capped_branch_count(max_branch_count: Option<u32>) -> (r: Option<usize>)
    ensures
        r == (match max_branch_count {
            Some(c) => Some(
                if c as int <= MAX_BRANCH_COUNT_CAP {
                    c as usize
                } else {
                    MAX_BRANCH_COUNT_CAP
                },
            ),
            None => None::<usize>,
        }),
{
    match max_branch_count {
        Some(c) => {
            if c <= 500u32 {
                Some(c as usize)
            } else {
                Some(MAX_BRANCH_COUNT_CAP)
            }
        },
        None => None,
    }
}

} // verus!
