//! What a configuration sets up.
use vstd::prelude::*;

use crate::client;
use crate::config;
use crate::error;
use crate::factory;

verus! {

/// What a configuration says is what the hook goes by: where it waits, how long, what it does
/// without an answer, and how much of a payload it shows.
pub proof fn hook_goes_by_its_configuration(
    cfg: config::GrpcHookConfig,
    factories: Seq<factory::GrpcHookInterceptorFactory>,
)
    requires
        cfg.enabled,
        config::is_set_up(cfg, factories),
    ensures
        factories.len() == 1,
        factories[0].endpoint@ == cfg.endpoint@,
        factories[0].hook.timeout_ms == cfg.timeout_ms,
        factories[0].hook.fail_open == cfg.fail_open,
        factories[0].hook.max_payload_bytes == cfg.max_payload_bytes,
{
}

/// From the configuration to the decision: while the server does not answer, peers connect and
/// messages pass exactly if the configuration says that the hook fails open.
pub proof fn configuration_decides_silence(
    cfg: config::GrpcHookConfig,
    factories: Seq<factory::GrpcHookInterceptorFactory>,
    registered: client::CallOutcome<client::AuthOnRegisterResponse>,
    declared: client::CallOutcome<client::AuthOnSubscribeResponse>,
    published: client::CallOutcome<client::AuthOnPublishResponse>,
)
    requires
        cfg.enabled,
        config::is_set_up(cfg, factories),
        !(registered is Answered),
        !(declared is Answered),
        !(published is Answered),
    ensures
        factories[0].hook.register_decision(registered) <==> cfg.fail_open,
        factories[0].hook.subscribe_decision(declared).0 <==> cfg.fail_open,
        factories[0].hook.publish_decision(published).0 <==> cfg.fail_open,
{
}

/// A configuration is at fault exactly if it enables the hook and either says nothing of where the
/// server is, or says it in a way that is turned down; the fault names the endpoint and the reason.
pub proof fn faults_of_a_configuration(
    cfg: config::GrpcHookConfig,
    rejection: Option<Seq<char>>,
)
    ensures
        cfg.fault(rejection) is None <==> !cfg.enabled || (cfg.endpoint@.len() > 0
            && rejection is None),
        cfg.enabled && cfg.endpoint@.len() == 0 ==> (cfg.fault(rejection) matches Some(fault)
            && fault is EndpointMissing),
        cfg.enabled && cfg.endpoint@.len() > 0 && rejection is Some ==> (cfg.fault(
            rejection,
        ) matches Some(error::HookErrorView::InvalidEndpoint { endpoint, reason }) && endpoint
            == cfg.endpoint@ && reason == rejection->0),
{
}

/// A configuration that differs only in its endpoint gives a hook that decides and asks alike.
pub proof fn endpoint_does_not_change_the_hook(
    cfg: config::GrpcHookConfig,
    other: config::GrpcHookConfig,
)
    requires
        cfg.timeout_ms == other.timeout_ms,
        cfg.fail_open == other.fail_open,
        cfg.max_payload_bytes == other.max_payload_bytes,
    ensures
        cfg.client() == other.client(),
{
}

} // verus!
