//! Incoming client messages: the checks every message passes before it is
//! dispatched (responses to server requests, the handshake,
//! authentication, ACP routes), and the response with the work that must
//! wait until it has been sent.

use vstd::prelude::*;
use vstd::string::StringExecFns;

use crate::delivery::{acp_route, acp_route_of, AcpRoute};
use crate::protocol::{ProtocolError, ProtocolErrorCode};
use crate::text::text_equals;

verus! {

/// Method of the ACP handshake.
pub const ACP_INITIALIZE_METHOD: &'static str = "initialize";

/// Method of ACP authentication.
pub const ACP_AUTHENTICATE_METHOD: &'static str = "authenticate";

/// Method of ACP logout.
pub const ACP_LOGOUT_METHOD: &'static str = "logout";

/// The shape of an incoming JSON-RPC message, as far as dispatch reads it.
pub struct IncomingShape {
    /// The `method` member when it is a string.
    pub method: Option<String>,
    /// Whether a `method` member is present at all.
    pub has_method: bool,
    pub has_id: bool,
    pub has_result: bool,
    pub has_error: bool,
}

/// What becomes of an incoming message before dispatch.
#[derive(Debug, Clone, Copy, PartialEq, Eq, Structural)]
pub enum IncomingDisposition {
    /// A client's response to a server-initiated request.
    ResolveClientResponse,
    /// Nothing to answer: a message without a usable method, or a
    /// notification that may not pass.
    Drop,
    /// The ACP handshake.
    Initialize,
    /// Refuse: the connection has not completed the handshake.
    NotInitialized,
    /// ACP authentication.
    Authenticate,
    /// ACP logout.
    Logout,
    /// Refuse: the connection must authenticate first.
    AuthRequired,
    /// An ACP session method.
    Acp(AcpRoute),
    /// Any other method: dispatched by name.
    Dispatch,
}

/// The refusal of a request on a connection that has not completed the
/// handshake (disposition `NotInitialized`).
pub fn not_initialized_error() -> (error: ProtocolError)
    ensures
        error.code == ProtocolErrorCode::NotInitialized,
        error.message@ == "connection has not completed initialize"@,
{
    proof {
        reveal_strlit("connection has not completed initialize");
    }
    ProtocolError {
        code: ProtocolErrorCode::NotInitialized,
        message: String::from_str("connection has not completed initialize"),
    }
}

/// The disposition of a message of shape `shape` on a connection
/// that is `ready` (handshake done) and `authenticated`.
pub open spec fn incoming_route(shape: IncomingShape, ready: bool, authenticated: bool) -> IncomingDisposition {
    if !shape.has_method && shape.has_id && (shape.has_result || shape.has_error) {
        IncomingDisposition::ResolveClientResponse
    } else {
        match shape.method {
            None => IncomingDisposition::Drop,
            Some(m) => if m@ == "initialize"@ {
                IncomingDisposition::Initialize
            } else if !ready {
                if shape.has_id { IncomingDisposition::NotInitialized } else { IncomingDisposition::Drop }
            } else if m@ == "authenticate"@ {
                IncomingDisposition::Authenticate
            } else if m@ == "logout"@ {
                IncomingDisposition::Logout
            } else if !authenticated {
                if shape.has_id { IncomingDisposition::AuthRequired } else { IncomingDisposition::Drop }
            } else {
                match acp_route_of(m@) {
                    Some(route) => IncomingDisposition::Acp(route),
                    None => IncomingDisposition::Dispatch,
                }
            },
        }
    }
}

/// Decides what becomes of an incoming message before dispatch: only the
/// handshake passes an uninitialized connection, and only the handshake,
/// authentication and logout pass an unauthenticated one; a request that
/// may not pass is refused, a notification dropped.
pub fn incoming_disposition(shape: &IncomingShape, ready: bool, authenticated: bool) -> (disposition: IncomingDisposition)
    ensures
        disposition == incoming_route(*shape, ready, authenticated),
{
    if !shape.has_method && shape.has_id && (shape.has_result || shape.has_error) {
        return IncomingDisposition::ResolveClientResponse;
    }
    let method = match &shape.method {
        None => return IncomingDisposition::Drop,
        Some(m) => m.as_str(),
    };
    proof {
        reveal_strlit("initialize");
        reveal_strlit("authenticate");
        reveal_strlit("logout");
    }
    if text_equals(method, ACP_INITIALIZE_METHOD) {
        return IncomingDisposition::Initialize;
    }
    if !ready {
        return if shape.has_id {
            IncomingDisposition::NotInitialized
        } else {
            IncomingDisposition::Drop
        };
    }
    if text_equals(method, ACP_AUTHENTICATE_METHOD) {
        return IncomingDisposition::Authenticate;
    }
    if text_equals(method, ACP_LOGOUT_METHOD) {
        return IncomingDisposition::Logout;
    }
    if !authenticated {
        return if shape.has_id {
            IncomingDisposition::AuthRequired
        } else {
            IncomingDisposition::Drop
        };
    }
    match acp_route(method) {
        Some(route) => IncomingDisposition::Acp(route),
        None => IncomingDisposition::Dispatch,
    }
}

/// Work that runs once the response to a request has been sent.
#[derive(Debug, Clone, Copy, PartialEq, Eq, Structural)]
pub enum PostResponseAction {
    /// Send the session's ACP state snapshot to the connection.
    SendAcpSessionStateSnapshot { connection_id: u64, session_id: u128 },
}

/// The post-response work of one request, in order.
pub struct PostResponseActions(pub Vec<PostResponseAction>);

impl PostResponseActions {
    /// No post-response work.
    pub fn new() -> (actions: Self)
        ensures
            actions.0@.len() == 0,
    {
        PostResponseActions(Vec::new())
    }
}

/// A response to an incoming request, with the work that must wait until
/// it has been sent. `R` is the response document; `success` records
/// whether it carries a result and no error.
pub struct IncomingResponse<R> {
    response: R,
    success: bool,
    post_response_actions: PostResponseActions,
}

impl<R> IncomingResponse<R> {
    /// The response document.
    pub closed spec fn document(&self) -> R {
        self.response
    }

    /// Whether the response is a success.
    pub closed spec fn succeeded(&self) -> bool {
        self.success
    }

    /// The queued post-response work.
    pub closed spec fn actions(&self) -> Seq<PostResponseAction> {
        self.post_response_actions.0@
    }

    /// A response with no post-response work; it is a success when it has
    /// a result and no error.
    pub fn new(response: R, has_result: bool, has_error: bool) -> (incoming: Self)
        ensures
            incoming.document() == response,
            incoming.succeeded() == (has_result && !has_error),
            incoming.actions().len() == 0,
    {
        IncomingResponse { response, success: has_result && !has_error, post_response_actions: PostResponseActions::new() }
    }

    /// Whether the response is a success.
    pub fn is_success(&self) -> (success: bool)
        ensures
            success == self.succeeded(),
    {
        self.success
    }

    /// Queues one more piece of post-response work.
    pub fn with_post_response_action(self, action: PostResponseAction) -> (incoming: Self)
        ensures
            incoming.document() == self.document(),
            incoming.succeeded() == self.succeeded(),
            incoming.actions() == self.actions().push(action),
    {
        let mut incoming = self;
        incoming.post_response_actions.0.push(action);
        incoming
    }

    /// After a successful ACP session request, the session's state
    /// snapshot follows the response; a failed request, or one without a
    /// session, queues nothing.
    pub fn with_acp_session_state_snapshot_after_success(self, connection_id: u64, session_id: Option<u128>) -> (incoming: Self)
        ensures
            incoming.document() == self.document(),
            incoming.succeeded() == self.succeeded(),
            incoming.actions() == match session_id {
                Some(s) => if self.succeeded() {
                    self.actions().push(PostResponseAction::SendAcpSessionStateSnapshot { connection_id, session_id: s })
                } else {
                    self.actions()
                },
                None => self.actions(),
            },
    {
        let session_id = match session_id {
            None => return self,
            Some(s) => s,
        };
        if !self.is_success() {
            return self;
        }
        self.with_post_response_action(PostResponseAction::SendAcpSessionStateSnapshot { connection_id, session_id })
    }

    /// The response document and its post-response work.
    pub fn into_parts(self) -> (parts: (R, PostResponseActions))
        ensures
            parts.0 == self.document(),
            parts.1.0@ == self.actions(),
    {
        (self.response, self.post_response_actions)
    }
}

} // verus!
