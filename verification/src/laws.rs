//! What holds of the hook as a whole.
use vstd::prelude::*;

pub mod decision;
pub mod egress;
pub mod ingress;
pub mod peer;
pub mod question;
pub mod setup;
pub mod table;
pub mod value;

use crate::client;
use crate::config;
use crate::factory;
use crate::interceptor;
use crate::keyexpr;
use crate::message;
use crate::rewrite;
use crate::text;

verus! {

/// A peer gets messages under the key that it declared. Where the hook lets a declaration of `key`
/// pass as `new_key`, and `new_key` does not stand for another key already, the declaration travels
/// on as `new_key`, and a message that comes back under `new_key` leaves for the peer as a message
/// under `key`, with nothing else changed.
pub proof fn declared_key_comes_back(
    map: rewrite::RewriteMap,
    key: Seq<char>,
    new_key: Seq<char>,
    declaration: message::NetworkBodyView,
    reply: message::NetworkBodyView,
)
    requires
        declaration.is_declaration(),
        reply.is_data(),
        !text::is_admin(key),
        !text::is_admin(new_key),
        !text::has_wildcard(key),
        new_key != key,
        rewrite::exact_match(map.exact, new_key) matches Some(o) ==> o == key,
        text::trimmed(key) == key,
        keyexpr::is_keyexpr(key),
        text::trimmed(new_key) == new_key,
        keyexpr::is_keyexpr(new_key),
    ensures
        interceptor::let_in(key, declaration, true, Some(new_key)) == declaration.with_wire_expr(
            message::WireExprView::global(new_key),
        ),
        interceptor::let_out(
            interceptor::recorded(map, key, declaration, true, Some(new_key)),
            new_key,
            reply,
        ) == reply.with_wire_expr(message::WireExprView::global(key)),
{
    rewrite::recorded_key_is_reversed(map, new_key, key);
}

/// A peer that declared a key with a wildcard gets messages under keys of that form. Where the hook
/// lets the declaration pass as `new_key`, a message under the part of `new_key` before its first
/// wildcard and any `suffix` leaves for the peer under the part of `key` before its first wildcard
/// and the same `suffix`.
pub proof fn declared_prefix_comes_back(
    map: rewrite::RewriteMap,
    key: Seq<char>,
    new_key: Seq<char>,
    suffix: Seq<char>,
    declaration: message::NetworkBodyView,
    reply: message::NetworkBodyView,
)
    requires
        declaration.is_declaration(),
        reply.is_data(),
        !text::is_admin(key),
        text::has_wildcard(key),
        new_key != key,
        !text::is_admin(text::literal_prefix(new_key) + suffix),
        (text::literal_prefix(new_key) + suffix).len() > 0,
        map.reversed(text::literal_prefix(new_key) + suffix) matches Some(o) ==> o
            == text::literal_prefix(key) + suffix,
        text::trimmed(text::literal_prefix(key) + suffix) == text::literal_prefix(key) + suffix,
        keyexpr::is_keyexpr(text::literal_prefix(key) + suffix),
    ensures
        interceptor::let_out(
            interceptor::recorded(map, key, declaration, true, Some(new_key)),
            text::literal_prefix(new_key) + suffix,
            reply,
        ) == reply.with_wire_expr(
            message::WireExprView::global(text::literal_prefix(key) + suffix),
        ),
{
    rewrite::recorded_prefix_is_reversed(map, new_key, key, suffix);
}

/// A hook that keeps its peers apart by putting `front` and a `/` before every key is invisible to
/// them. A declaration travels on under the longer key, with a wildcard or without; a message under
/// that key, or under a key that the wildcard stands for, leaves for the peer without `front`.
pub proof fn prepended_chunks_come_off(
    map: rewrite::RewriteMap,
    front: Seq<char>,
    key: Seq<char>,
    suffix: Seq<char>,
    declaration: message::NetworkBodyView,
    reply: message::NetworkBodyView,
)
    requires
        declaration.is_declaration(),
        reply.is_data(),
        keyexpr::plain_key(front),
        !text::has_wildcard(front),
        !text::is_admin(front),
        !text::is_white_space(front[0]),
        !text::is_admin(key),
        keyexpr::is_keyexpr(key),
        text::trimmed(key) == key,
    ensures
        interceptor::let_in(key, declaration, true, Some(front + seq!['/'] + key))
            == declaration.with_wire_expr(message::WireExprView::global(front + seq!['/'] + key)),
        !text::has_wildcard(key) && rewrite::exact_match(map.exact, front + seq!['/'] + key) is None
            ==> interceptor::let_out(
            interceptor::recorded(map, key, declaration, true, Some(front + seq!['/'] + key)),
            front + seq!['/'] + key,
            reply,
        ) == reply.with_wire_expr(message::WireExprView::global(key)),
        ({
            let under = text::literal_prefix(key) + suffix;
            text::has_wildcard(key) && keyexpr::is_keyexpr(under) && text::trimmed(under) == under
                && map.reversed(front + seq!['/'] + under) is None ==> interceptor::let_out(
                interceptor::recorded(map, key, declaration, true, Some(front + seq!['/'] + key)),
                front + seq!['/'] + under,
                reply,
            ) == reply.with_wire_expr(message::WireExprView::global(under))
        }),
{
    let start = front + seq!['/'];
    let new_key = start + key;
    let under = text::literal_prefix(key) + suffix;
    keyexpr::prepended_chunks_keep_a_keyexpr(front, key);
    text::trim_is_idempotent(key);
    assert(new_key[0] == front[0]);
    assert(new_key.last() == key.last());
    text::lemma_trimmed_fixed(new_key);
    assert(new_key.len() != key.len());
    assert(!text::has_wildcard(start)) by {
        assert forall|i: int| 0 <= i < start.len() implies !text::is_wildcard(
            #[trigger] start[i],
        ) by {
            if i < front.len() {
                assert(start[i] == front[i]);
            }
        }
    }
    text::lemma_literal_prefix_of_sum(start, key);
    assert(text::literal_prefix(new_key) + suffix =~= start + under);
    if !text::has_wildcard(key) {
        if rewrite::exact_match(map.exact, new_key) is None {
            rewrite::recorded_key_is_reversed(map, new_key, key);
        }
    } else if map.reversed(start + under) is None {
        rewrite::recorded_prefix_is_reversed(map, new_key, key, suffix);
    }
    assert((start + under)[0] == front[0]);
}

/// A message that the hook denies does not pass, and neither it nor the reverse table changes,
/// whatever key came with the denial.
pub proof fn denial_changes_nothing(
    map: rewrite::RewriteMap,
    key: Seq<char>,
    msg: message::NetworkBodyView,
    new_key: Option<Seq<char>>,
)
    requires
        interceptor::is_gated(key, msg),
    ensures
        !interceptor::passes(key, msg, false),
        interceptor::let_in(key, msg, false, new_key) == msg,
        interceptor::recorded(map, key, msg, false, new_key) == map,
{
}

/// Without an answer it is `fail_open` that decides, no key is rewritten, and nothing is recorded,
/// for data and declarations alike.
pub proof fn silence_is_decided_by_fail_open(
    hook: client::HookClient,
    published: client::CallOutcome<client::AuthOnPublishResponse>,
    subscribed: client::CallOutcome<client::AuthOnSubscribeResponse>,
    registered: client::CallOutcome<client::AuthOnRegisterResponse>,
    map: rewrite::RewriteMap,
    key: Seq<char>,
    msg: message::NetworkBodyView,
)
    requires
        !(published is Answered),
        !(subscribed is Answered),
        !(registered is Answered),
        interceptor::is_gated(key, msg),
    ensures
        hook.register_decision(registered) == hook.fail_open,
        hook.publish_decision(published) == (hook.fail_open, None::<Seq<char>>),
        hook.subscribe_decision(subscribed) == (hook.fail_open, None::<Seq<char>>),
        interceptor::passes(key, msg, hook.fail_open) == hook.fail_open,
        interceptor::let_in(key, msg, hook.fail_open, None) == msg,
        interceptor::recorded(map, key, msg, hook.fail_open, None) == map,
{
}

/// A hook that does not fail open is a hard gate: nothing that needs its leave passes, and no peer
/// connects, unless the server answered and allowed it.
pub proof fn closed_hook_is_a_hard_gate(
    hook: client::HookClient,
    published: client::CallOutcome<client::AuthOnPublishResponse>,
    subscribed: client::CallOutcome<client::AuthOnSubscribeResponse>,
    registered: client::CallOutcome<client::AuthOnRegisterResponse>,
    key: Seq<char>,
    msg: message::NetworkBodyView,
)
    requires
        !hook.fail_open,
        interceptor::is_gated(key, msg),
    ensures
        interceptor::passes(key, msg, hook.publish_decision(published).0) ==> published is Answered
            && published->Answered_0.allow,
        interceptor::passes(key, msg, hook.subscribe_decision(subscribed).0)
            ==> subscribed is Answered && subscribed->Answered_0.allow,
        hook.register_decision(registered) ==> registered is Answered
            && registered->Answered_0.allow,
{
}

/// Messages of the router's own administration go through both gates without a question and
/// without a change.
pub proof fn administration_is_not_gated(
    hook: client::HookClient,
    meta: interceptor::PeerMetaView,
    map: rewrite::RewriteMap,
    key: Seq<char>,
    msg: message::NetworkBodyView,
    allow: bool,
    new_key: Option<Seq<char>>,
)
    requires
        text::is_admin(key),
    ensures
        interceptor::question_for(hook, meta, key, msg) is Pass,
        interceptor::passes(key, msg, allow),
        interceptor::let_in(key, msg, allow, new_key) == msg,
        interceptor::recorded(map, key, msg, allow, new_key) == map,
        interceptor::let_out(map, key, msg) == msg,
{
}

/// A message is asked about exactly when it needs leave: data, queries and replies as publications,
/// declarations as subscriptions.
pub proof fn every_gated_message_is_asked_about(
    hook: client::HookClient,
    meta: interceptor::PeerMetaView,
    key: Seq<char>,
    msg: message::NetworkBodyView,
)
    ensures
        interceptor::question_for(hook, meta, key, msg) is Pass <==> !interceptor::is_gated(key, msg),
        interceptor::question_for(hook, meta, key, msg) is Publish <==> !text::is_admin(key)
            && msg.is_data(),
        interceptor::question_for(hook, meta, key, msg) is Subscribe <==> !text::is_admin(key)
            && msg.is_declaration(),
{
}

/// Every question about a message names the key of the message, and names the peer by what it
/// registered with.
pub proof fn questions_name_the_registered_peer(
    hook: client::HookClient,
    request: client::RegisterRequestView,
    key: Seq<char>,
    msg: message::NetworkBodyView,
)
    ensures
        interceptor::question_for(
            hook,
            factory::meta_of(request),
            key,
            msg,
        ) matches interceptor::QuestionView::Publish(asked) ==> {
            &&& asked.key_expr == key
            &&& asked.peer_id == request.peer_id
            &&& asked.username == request.username
            &&& asked.cert_cn == request.cert_cn
            &&& asked.link_protocol == request.link_protocol
            &&& asked.interface == request.interface
        },
        interceptor::question_for(
            hook,
            factory::meta_of(request),
            key,
            msg,
        ) matches interceptor::QuestionView::Subscribe(asked) ==> {
            &&& asked.key_expr == key
            &&& asked.peer_id == request.peer_id
            &&& asked.username == request.username
            &&& asked.cert_cn == request.cert_cn
            &&& asked.link_protocol == request.link_protocol
            &&& asked.interface == request.interface
        },
{
}

/// The hook is shown no more than `max` bytes of a payload, and those are its first; a payload that
/// fits is shown whole, and with a limit of 0 nothing is shown.
pub proof fn payload_is_shown_up_to_the_limit(payload: Seq<u8>, max: usize)
    ensures
        client::captured(payload, max).len() <= max,
        client::captured(payload, max).is_prefix_of(payload),
        payload.len() <= max ==> client::captured(payload, max) == payload,
        payload.len() > max ==> client::captured(payload, max).len() == max,
        client::captured(payload, 0) == Seq::<u8>::empty(),
{
}

/// Only a publication shows a payload, and only up to the limit of the hook.
pub proof fn only_publications_show_payload(
    hook: client::HookClient,
    meta: interceptor::PeerMetaView,
    key: Seq<char>,
    msg: message::NetworkBodyView,
)
    ensures
        interceptor::question_for(
            hook,
            meta,
            key,
            msg,
        ) matches interceptor::QuestionView::Publish(asked) ==> {
            &&& asked.payload.len() <= hook.max_payload_bytes
            &&& !(msg is Put) ==> asked.payload.len() == 0
        },
{
}

/// Neither gate changes anything of a message but where it says its key.
pub proof fn gates_change_only_the_key(
    map: rewrite::RewriteMap,
    key: Seq<char>,
    msg: message::NetworkBodyView,
    allow: bool,
    new_key: Option<Seq<char>>,
    wire_expr: message::WireExprView,
)
    ensures
        interceptor::let_in(key, msg, allow, new_key).with_wire_expr(wire_expr)
            == msg.with_wire_expr(wire_expr),
        interceptor::let_out(map, key, msg).with_wire_expr(wire_expr) == msg.with_wire_expr(
            wire_expr,
        ),
{
}

/// Data, queries and replies leave the reverse table as it is.
pub proof fn only_declarations_are_recorded(
    map: rewrite::RewriteMap,
    key: Seq<char>,
    msg: message::NetworkBodyView,
    allow: bool,
    new_key: Option<Seq<char>>,
)
    requires
        !msg.is_declaration(),
    ensures
        interceptor::recorded(map, key, msg, allow, new_key) == map,
{
}

/// A key that comes back to a peer keeps coming back: whatever the hook decides afterwards, a whole
/// key that the table knows stays known and stands for the same key.
pub proof fn known_key_keeps_coming_back(
    map: rewrite::RewriteMap,
    known: Seq<char>,
    key: Seq<char>,
    msg: message::NetworkBodyView,
    allow: bool,
    new_key: Option<Seq<char>>,
)
    requires
        rewrite::knows(map.exact, known),
    ensures
        rewrite::knows(interceptor::recorded(map, key, msg, allow, new_key).exact, known),
        interceptor::recorded(map, key, msg, allow, new_key).reversed(known) == map.reversed(known),
{
    if let Some(new_key) = new_key {
        rewrite::first_record_stays(map, new_key, key, known);
    }
}

/// The gates keep the reverse table well formed.
pub proof fn gates_keep_the_table_well_formed(
    map: rewrite::RewriteMap,
    key: Seq<char>,
    msg: message::NetworkBodyView,
    allow: bool,
    new_key: Option<Seq<char>>,
)
    requires
        map.well_formed(),
    ensures
        interceptor::recorded(map, key, msg, allow, new_key).well_formed(),
{
    if let Some(new_key) = new_key {
        rewrite::insert_keeps_well_formed(map, new_key, key);
    }
}

/// A wire expression after a rewrite either is what it was or carries the whole new key without
/// white space at its ends; a second rewrite to the same key changes nothing; a blank key changes
/// nothing.
pub proof fn rewrite_is_all_or_nothing(wire_expr: message::WireExprView, new_key: Seq<char>)
    ensures
        wire_expr.rewritten(new_key) == wire_expr || wire_expr.rewritten(new_key)
            == message::WireExprView::global(text::trimmed(new_key)),
        wire_expr.rewritten(new_key).rewritten(new_key) == wire_expr.rewritten(new_key),
        wire_expr.rewritten(text::trimmed(new_key)) == wire_expr.rewritten(new_key),
        text::trimmed(new_key).len() == 0 ==> wire_expr.rewritten(new_key) == wire_expr,
{
    text::trim_is_idempotent(new_key);
}

/// A configuration that does not enable the hook is never at fault and sets up nothing, whatever
/// else it says.
pub proof fn disabled_hook_sets_up_nothing(
    cfg: config::GrpcHookConfig,
    rejection: Option<Seq<char>>,
    factories: Seq<factory::GrpcHookInterceptorFactory>,
)
    requires
        !cfg.enabled,
    ensures
        cfg.fault(rejection) is None,
        config::is_set_up(cfg, factories) <==> factories.len() == 0,
{
}

} // verus!
