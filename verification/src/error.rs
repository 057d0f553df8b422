//! Why the hook turns a configuration or a peer away.
use vstd::prelude::*;

verus! {

/// Why the hook turns a configuration or a peer away.
#[derive(Debug, PartialEq, Eq)]
pub enum HookError {
    /// The transport did not tell who the peer is.
    AuthIdsUnavailable { peer_id: String, reason: String },
    /// The peer may not connect.
    RegisterDenied { peer_id: String },
    /// The hook is enabled, but it is not said where the server is.
    EndpointMissing,
    /// What is said of where the server is cannot be understood.
    InvalidEndpoint { endpoint: String, reason: String },
}

/// The value of a `HookError`.
pub enum HookErrorView {
    AuthIdsUnavailable { peer_id: Seq<char>, reason: Seq<char> },
    RegisterDenied { peer_id: Seq<char> },
    EndpointMissing,
    InvalidEndpoint { endpoint: Seq<char>, reason: Seq<char> },
}

impl View for HookError {
    type V = HookErrorView;

    open spec fn view(&self) -> HookErrorView {
        match *self {
            HookError::AuthIdsUnavailable { peer_id, reason } => {
                HookErrorView::AuthIdsUnavailable { peer_id: peer_id@, reason: reason@ }
            },
            HookError::RegisterDenied { peer_id } => HookErrorView::RegisterDenied {
                peer_id: peer_id@,
            },
            HookError::EndpointMissing => HookErrorView::EndpointMissing,
            HookError::InvalidEndpoint { endpoint, reason } => HookErrorView::InvalidEndpoint {
                endpoint: endpoint@,
                reason: reason@,
            },
        }
    }
}

impl HookErrorView {
    /// The error in words.
    pub open spec fn message(self) -> Seq<char> {
        match self {
            HookErrorView::AuthIdsUnavailable { peer_id, reason } => {
                "grpc_hook: could not get auth IDs for "@ + peer_id + ": "@ + reason
            },
            HookErrorView::RegisterDenied { peer_id } => {
                "grpc_hook: auth_on_register DENIED for peer "@ + peer_id
            },
            HookErrorView::EndpointMissing => {
                "grpc_hook is enabled but `endpoint` is not configured"@
            },
            HookErrorView::InvalidEndpoint { endpoint, reason } => {
                "grpc_hook: invalid endpoint '"@ + endpoint + "': "@ + reason
            },
        }
    }
}

impl HookError {
    /// The error in words.
    pub fn message(&self) -> (words: String)
        ensures
            words@ == self@.message(),
    {
        match self {
            HookError::AuthIdsUnavailable { peer_id, reason } => {
                "grpc_hook: could not get auth IDs for ".to_owned().concat(
                    peer_id.as_str(),
                ).concat(": ").concat(reason.as_str())
            },
            HookError::RegisterDenied { peer_id } => {
                "grpc_hook: auth_on_register DENIED for peer ".to_owned().concat(peer_id.as_str())
            },
            HookError::EndpointMissing => {
                "grpc_hook is enabled but `endpoint` is not configured".to_owned()
            },
            HookError::InvalidEndpoint { endpoint, reason } => {
                "grpc_hook: invalid endpoint '".to_owned().concat(endpoint.as_str()).concat(
                    "': ",
                ).concat(reason.as_str())
            },
        }
    }
}

} // verus!
