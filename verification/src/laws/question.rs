//! What the hook is asked about a message, part by part.
use vstd::prelude::*;

use crate::client;
use crate::interceptor;
use crate::message;

verus! {

/// A publication is asked about with the start of its payload: all of it where it fits the limit,
/// else as much as the limit allows.
pub proof fn publication_shows_its_payload(
    hook: client::HookClient,
    meta: interceptor::PeerMetaView,
    key: Seq<char>,
    wire_expr: message::WireExprView,
    qos: message::QoS,
    payload: Seq<u8>,
)
    requires
        !(key.len() > 0 && key[0] == '@'),
    ensures
        interceptor::question_for(
            hook,
            meta,
            key,
            message::NetworkBodyView::Put { wire_expr, qos, payload },
        ) matches interceptor::QuestionView::Publish(asked) && {
            &&& asked.payload.is_prefix_of(payload)
            &&& asked.payload.len() == if payload.len() <= hook.max_payload_bytes {
                payload.len()
            } else {
                hook.max_payload_bytes as nat
            }
            &&& asked.action == "put"@
            &&& asked.query_parameters == ""@
            &&& asked.query_target == ""@
            &&& asked.priority == message::priority_label(qos.priority)
            &&& asked.congestion_control == message::congestion_control_label(
                qos.congestion_control,
            )
        },
{
}

/// A deletion and a reply are asked about with their quality of service and without a payload.
pub proof fn deletion_and_reply_show_their_quality_of_service(
    hook: client::HookClient,
    meta: interceptor::PeerMetaView,
    key: Seq<char>,
    wire_expr: message::WireExprView,
    qos: message::QoS,
)
    requires
        !(key.len() > 0 && key[0] == '@'),
    ensures
        interceptor::question_for(
            hook,
            meta,
            key,
            message::NetworkBodyView::Del { wire_expr, qos },
        ) matches interceptor::QuestionView::Publish(asked) && {
            &&& asked.action == "delete"@
            &&& asked.payload.len() == 0
            &&& asked.query_parameters == ""@
            &&& asked.query_target == ""@
            &&& asked.priority == message::priority_label(qos.priority)
            &&& asked.congestion_control == message::congestion_control_label(
                qos.congestion_control,
            )
        },
        interceptor::question_for(
            hook,
            meta,
            key,
            message::NetworkBodyView::Response { wire_expr, qos },
        ) matches interceptor::QuestionView::Publish(asked) && {
            &&& asked.action == "reply"@
            &&& asked.payload.len() == 0
            &&& asked.query_parameters == ""@
            &&& asked.query_target == ""@
            &&& asked.priority == message::priority_label(qos.priority)
            &&& asked.congestion_control == message::congestion_control_label(
                qos.congestion_control,
            )
        },
{
}

/// A query is asked about with all its parameters and its target.
pub proof fn query_shows_its_parameters(
    hook: client::HookClient,
    meta: interceptor::PeerMetaView,
    key: Seq<char>,
    wire_expr: message::WireExprView,
    qos: message::QoS,
    target: message::QueryTarget,
    parameters: Seq<char>,
)
    requires
        !(key.len() > 0 && key[0] == '@'),
    ensures
        interceptor::question_for(
            hook,
            meta,
            key,
            message::NetworkBodyView::Query { wire_expr, qos, target, parameters },
        ) matches interceptor::QuestionView::Publish(asked) && {
            &&& asked.action == "query"@
            &&& asked.query_parameters == parameters
            &&& asked.query_target == message::query_target_label(target)
            &&& asked.payload.len() == 0
            &&& asked.priority == message::priority_label(qos.priority)
            &&& asked.congestion_control == message::congestion_control_label(
                qos.congestion_control,
            )
        },
{
}

/// A declaration is asked about as what it declares; a queryable with whether it is complete.
pub proof fn declaration_shows_its_kind(
    hook: client::HookClient,
    meta: interceptor::PeerMetaView,
    key: Seq<char>,
    wire_expr: message::WireExprView,
    complete: bool,
)
    requires
        !(key.len() > 0 && key[0] == '@'),
    ensures
        interceptor::question_for(
            hook,
            meta,
            key,
            message::NetworkBodyView::DeclareSubscriber { wire_expr },
        ) matches interceptor::QuestionView::Subscribe(asked) && {
            &&& asked.kind == "subscriber"@
            &&& asked.reliability == "reliable"@
            &&& !asked.history
        },
        interceptor::question_for(
            hook,
            meta,
            key,
            message::NetworkBodyView::DeclareQueryable { wire_expr, complete },
        ) matches interceptor::QuestionView::Subscribe(asked) && {
            &&& asked.kind == "queryable"@
            &&& asked.reliability == "reliable"@
            &&& asked.history == complete
        },
{
}

/// Every message but one under a key that starts with `@`, and but one of no known kind, is asked
/// about, with its key in full and with all that is known of the peer.
pub proof fn question_names_key_and_peer(
    hook: client::HookClient,
    meta: interceptor::PeerMetaView,
    key: Seq<char>,
    msg: message::NetworkBodyView,
)
    ensures
        interceptor::question_for(hook, meta, key, msg) is Pass <==> msg is Other || (key.len() > 0
            && key[0] == '@'),
        match interceptor::question_for(hook, meta, key, msg) {
            interceptor::QuestionView::Pass => true,
            interceptor::QuestionView::Publish(asked) => {
                &&& msg is Put || msg is Del || msg is Query || msg is Response
                &&& asked.key_expr == key
                &&& asked.peer_id == meta.peer_id
                &&& asked.username == meta.username
                &&& asked.cert_cn == meta.cert_cn
                &&& asked.link_protocol == meta.link_protocol
                &&& asked.interface == meta.interface
            },
            interceptor::QuestionView::Subscribe(asked) => {
                &&& msg is DeclareSubscriber || msg is DeclareQueryable
                &&& asked.key_expr == key
                &&& asked.peer_id == meta.peer_id
                &&& asked.username == meta.username
                &&& asked.cert_cn == meta.cert_cn
                &&& asked.link_protocol == meta.link_protocol
                &&& asked.interface == meta.interface
            },
        },
{
}

/// How a message says its key on the wire does not change what is asked about it, and neither does
/// how long the hook waits, nor what it does without an answer.
pub proof fn question_goes_by_the_key(
    hook: client::HookClient,
    other_hook: client::HookClient,
    meta: interceptor::PeerMetaView,
    key: Seq<char>,
    msg: message::NetworkBodyView,
    wire_expr: message::WireExprView,
)
    requires
        hook.max_payload_bytes == other_hook.max_payload_bytes,
    ensures
        interceptor::question_for(hook, meta, key, msg.with_wire_expr(wire_expr))
            == interceptor::question_for(other_hook, meta, key, msg),
{
}

} // verus!
