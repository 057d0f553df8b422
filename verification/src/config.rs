//! How the hook is configured.
use vstd::prelude::*;

use crate::client;
use crate::client::HookClient;
use crate::error;
use crate::error::HookError;
use crate::factory::GrpcHookInterceptorFactory;

verus! {

/// How long an answer is waited for, in milliseconds, where nothing else is said.
pub const DEFAULT_TIMEOUT_MS: u64 = 500;

/// How many bytes of a payload are shown to the hook, where nothing else is said.
pub const DEFAULT_MAX_PAYLOAD_BYTES: usize = 65536;

/// How the hook is configured.
#[derive(Debug, PartialEq, Eq)]
pub struct GrpcHookConfig {
    /// Whether there is a hook at all.
    pub enabled: bool,
    /// Where the hook server is.
    pub endpoint: String,
    /// How long to wait for an answer, in milliseconds.
    pub timeout_ms: u64,
    /// Whether what the hook does not answer is allowed.
    pub fail_open: bool,
    /// How many bytes of a payload are shown to the hook; 0 shows none.
    pub max_payload_bytes: usize,
}

/// Why `tonic` does not take `endpoint` for an address, in words; nothing where it does.
pub uninterp spec fn endpoint_rejection(endpoint: Seq<char>) -> Option<Seq<char>>;

/// Why `endpoint` is no address, in words; nothing where it is one.
///
/// Calls `tonic::transport::Channel::from_shared`, which makes no connection, and puts its error
/// into words. Believed of it: whether the text is taken, and the error if not, depend on the text
/// alone (`endpoint_rejection`).
#[verifier::external_body]
pub(crate) fn reject_endpoint(endpoint: &str) -> (rejection: Option<String>)
    ensures
        client::text_of(rejection) == endpoint_rejection(endpoint@),
{
    match tonic::transport::Channel::from_shared(endpoint.to_owned()) {
        Ok(_) => None,
        Err(e) => Some(format!("{}", e)),
    }
}

impl GrpcHookConfig {
    /// How the hook server is called under this configuration.
    pub open spec fn client(self) -> HookClient {
        HookClient {
            timeout_ms: self.timeout_ms,
            fail_open: self.fail_open,
            max_payload_bytes: self.max_payload_bytes,
        }
    }

    /// What is wrong with the configuration, given what is wrong with its endpoint. Nothing is
    /// wrong with a hook that is not enabled.
    pub open spec fn fault(self, rejection: Option<Seq<char>>) -> Option<error::HookErrorView> {
        if !self.enabled {
            None
        } else if self.endpoint@.len() == 0 {
            Some(error::HookErrorView::EndpointMissing)
        } else {
            match rejection {
                Some(reason) => Some(
                    error::HookErrorView::InvalidEndpoint { endpoint: self.endpoint@, reason },
                ),
                None => None,
            }
        }
    }
}

/// Whether `factories` is what the configuration `cfg` gives, where nothing is wrong with it: none
/// for a hook that is not enabled, else one.
pub open spec fn is_set_up(cfg: GrpcHookConfig, factories: Seq<GrpcHookInterceptorFactory>) -> bool {
    if cfg.enabled {
        &&& factories.len() == 1
        &&& factories[0].hook == cfg.client()
        &&& factories[0].endpoint@ == cfg.endpoint@
    } else {
        factories.len() == 0
    }
}

/// The factories that `cfg` gives, if its endpoint is turned down for the reason `rejection`, or
/// taken where there is none.
pub fn factories_given(cfg: &GrpcHookConfig, rejection: Option<String>) -> (factories: Result<
    Vec<GrpcHookInterceptorFactory>,
    HookError,
>)
    ensures
        match cfg.fault(client::text_of(rejection)) {
            Some(fault) => factories is Err && factories->Err_0@ == fault,
            None => factories is Ok && is_set_up(*cfg, factories->Ok_0@),
        },
        !cfg.enabled ==> factories is Ok && factories->Ok_0@.len() == 0,
        cfg.enabled && cfg.endpoint@.len() == 0 ==> factories is Err
            && factories->Err_0 is EndpointMissing,
        factories matches Ok(made) ==> cfg.enabled ==> {
            &&& made@.len() == 1
            &&& made@[0].endpoint@ == cfg.endpoint@
            &&& made@[0].hook.timeout_ms == cfg.timeout_ms
            &&& made@[0].hook.fail_open == cfg.fail_open
            &&& made@[0].hook.max_payload_bytes == cfg.max_payload_bytes
        },
        cfg.enabled && cfg.endpoint@.len() > 0 ==> (factories is Ok <==> rejection is None),
        factories matches Err(HookError::InvalidEndpoint { endpoint, reason }) ==> {
            &&& endpoint@ == cfg.endpoint@
            &&& rejection matches Some(why)
            &&& reason@ == why@
        },
{
    let mut factories = Vec::new();
    if !cfg.enabled {
        return Ok(factories);
    }
    if cfg.endpoint.as_str().is_empty() {
        return Err(HookError::EndpointMissing);
    }
    match rejection {
        Some(reason) => Err(HookError::InvalidEndpoint { endpoint: cfg.endpoint.clone(), reason }),
        None => {
            let hook = HookClient {
                timeout_ms: cfg.timeout_ms,
                fail_open: cfg.fail_open,
                max_payload_bytes: cfg.max_payload_bytes,
            };
            factories.push(GrpcHookInterceptorFactory { hook, endpoint: cfg.endpoint.clone() });
            Ok(factories)
        },
    }
}

/// The factories that `cfg` gives: at most one, and none for a hook that is not enabled.
pub fn grpc_hook_interceptor_factories(cfg: &GrpcHookConfig) -> (factories: Result<
    Vec<GrpcHookInterceptorFactory>,
    HookError,
>)
    ensures
        match cfg.fault(endpoint_rejection(cfg.endpoint@)) {
            Some(fault) => factories is Err && factories->Err_0@ == fault,
            None => factories is Ok && is_set_up(*cfg, factories->Ok_0@),
        },
        !cfg.enabled ==> factories is Ok && factories->Ok_0@.len() == 0,
        cfg.enabled && cfg.endpoint@.len() == 0 ==> factories is Err
            && factories->Err_0 is EndpointMissing,
        factories matches Ok(made) ==> cfg.enabled ==> {
            &&& made@.len() == 1
            &&& made@[0].endpoint@ == cfg.endpoint@
            &&& made@[0].hook.timeout_ms == cfg.timeout_ms
            &&& made@[0].hook.fail_open == cfg.fail_open
            &&& made@[0].hook.max_payload_bytes == cfg.max_payload_bytes
        },
        cfg.enabled && cfg.endpoint@.len() > 0 ==> (factories is Ok <==> endpoint_rejection(
            cfg.endpoint@,
        ) is None),
        factories matches Err(HookError::InvalidEndpoint { endpoint, reason }) ==> {
            &&& endpoint@ == cfg.endpoint@
            &&& endpoint_rejection(cfg.endpoint@) == Some(reason@)
        },
{
    if !cfg.enabled || cfg.endpoint.as_str().is_empty() {
        return factories_given(cfg, None);
    }
    factories_given(cfg, reject_endpoint(cfg.endpoint.as_str()))
}

} // verus!
