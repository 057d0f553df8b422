//! What the values of messages, requests and errors are made of, part by part.
use vstd::prelude::*;

use crate::client;
use crate::error;
use crate::factory;
use crate::interceptor;
use crate::message;
use crate::text;

verus! {

/// A message has the parts that its fields hold, and is of the kind that it says.
pub proof fn message_is_its_fields(msg: message::NetworkBody<'_>)
    ensures
        match msg {
            message::NetworkBody::Put { wire_expr, qos, payload } => {
                &&& msg@ matches message::NetworkBodyView::Put {
                    wire_expr: w,
                    qos: q,
                    payload: p,
                }
                &&& w == wire_expr@
                &&& q == qos
                &&& p == payload@
            },
            message::NetworkBody::Del { wire_expr, qos } => {
                &&& msg@ matches message::NetworkBodyView::Del { wire_expr: w, qos: q }
                &&& w == wire_expr@
                &&& q == qos
            },
            message::NetworkBody::Query { wire_expr, qos, target, parameters } => {
                &&& msg@ matches message::NetworkBodyView::Query {
                    wire_expr: w,
                    qos: q,
                    target: t,
                    parameters: p,
                }
                &&& w == wire_expr@
                &&& q == qos
                &&& t == target
                &&& p == parameters@
            },
            message::NetworkBody::Response { wire_expr, qos } => {
                &&& msg@ matches message::NetworkBodyView::Response { wire_expr: w, qos: q }
                &&& w == wire_expr@
                &&& q == qos
            },
            message::NetworkBody::DeclareSubscriber { wire_expr } => {
                &&& msg@ matches message::NetworkBodyView::DeclareSubscriber { wire_expr: w }
                &&& w == wire_expr@
            },
            message::NetworkBody::DeclareQueryable { wire_expr, complete } => {
                &&& msg@ matches message::NetworkBodyView::DeclareQueryable {
                    wire_expr: w,
                    complete: c,
                }
                &&& w == wire_expr@
                &&& c == complete
            },
            message::NetworkBody::Other => msg@ is Other,
        },
{
}

/// A wire expression has the parts that its fields hold.
pub proof fn wire_expr_is_its_fields(w: message::WireExpr)
    ensures
        w@.scope == w.scope,
        w@.suffix == w.suffix@,
        w@.mapping == w.mapping,
{
}

/// The requests have the parts that their fields hold.
pub proof fn requests_are_their_fields(
    registered: client::AuthOnRegisterRequest,
    declared: client::AuthOnSubscribeRequest,
    published: client::AuthOnPublishRequest,
)
    ensures
        registered@.peer_id == registered.peer_id@,
        registered@.cert_cn == registered.cert_cn@,
        registered@.username == registered.username@,
        registered@.link_protocol == registered.link_protocol@,
        registered@.interface == registered.interface@,
        registered@.hmac == registered.hmac@,
        registered@.nonce == registered.nonce,
        declared@.peer_id == declared.peer_id@,
        declared@.username == declared.username@,
        declared@.key_expr == declared.key_expr@,
        declared@.kind == declared.kind@,
        declared@.cert_cn == declared.cert_cn@,
        declared@.link_protocol == declared.link_protocol@,
        declared@.interface == declared.interface@,
        declared@.reliability == declared.reliability@,
        declared@.history == declared.history,
        published@.peer_id == published.peer_id@,
        published@.username == published.username@,
        published@.key_expr == published.key_expr@,
        published@.action == published.action@,
        published@.cert_cn == published.cert_cn@,
        published@.link_protocol == published.link_protocol@,
        published@.interface == published.interface@,
        published@.payload == published.payload@,
        published@.congestion_control == published.congestion_control@,
        published@.priority == published.priority@,
        published@.query_parameters == published.query_parameters@,
        published@.query_target == published.query_target@,
{
}

/// A question holds the request that it says.
pub proof fn question_is_its_request(question: interceptor::Question)
    ensures
        question is Pass <==> question@ is Pass,
        question matches interceptor::Question::Publish(request) ==> question@
            == interceptor::QuestionView::Publish(request@),
        question matches interceptor::Question::Subscribe(request) ==> question@
            == interceptor::QuestionView::Subscribe(request@),
{
}

/// What is known of a peer has the parts that its fields hold.
pub proof fn peer_is_its_fields(meta: interceptor::PeerMeta)
    ensures
        meta@.peer_id == meta.peer_id@,
        meta@.username == meta.username@,
        meta@.cert_cn == meta.cert_cn@,
        meta@.link_protocol == meta.link_protocol@,
        meta@.interface == meta.interface@,
{
}

/// Text that is there is taken as it is; text that is not there counts as absent, or as empty.
pub proof fn optional_text(s: Option<String>, t: Option<&str>)
    ensures
        client::text_of(s) is Some <==> s is Some,
        s matches Some(text) ==> client::text_of(s) == Some(text@),
        s matches Some(text) ==> factory::string_or_empty(s) == text@,
        s is None ==> factory::string_or_empty(s).len() == 0,
        t matches Some(text) ==> interceptor::text_or_empty(t) == text@,
        t is None ==> interceptor::text_or_empty(t).len() == 0,
{
}

/// Keys of the administration start with `@`, and no other key does; `*`, `+` and `$` are the
/// wildcards.
pub proof fn special_keys(key: Seq<char>)
    ensures
        text::is_admin(key) <==> key.len() > 0 && key[0] == '@',
        text::has_wildcard(key) <==> key.contains('*') || key.contains('+') || key.contains('$'),
{
    if text::has_wildcard(key) {
        let i = choose|i: int| 0 <= i < key.len() && text::is_wildcard(#[trigger] key[i]);
        assert(key.contains(key[i]));
    }
    if key.contains('*') {
        assert(text::is_wildcard(key[key.index_of('*')]));
    }
    if key.contains('+') {
        assert(text::is_wildcard(key[key.index_of('+')]));
    }
    if key.contains('$') {
        assert(text::is_wildcard(key[key.index_of('$')]));
    }
}

/// Every message is one of three: data, a declaration, or another. Only the last has no wire
/// expression.
pub proof fn kinds_of_messages(msg: message::NetworkBodyView)
    ensures
        msg.is_data() <==> msg is Put || msg is Del || msg is Query || msg is Response,
        msg.is_declaration() <==> msg is DeclareSubscriber || msg is DeclareQueryable,
        !(msg.is_data() && msg.is_declaration()),
        msg.wire_expr() is None <==> msg is Other,
{
}

/// A wire expression that is put into a message is the one that is read from it, the last one counts,
/// and putting the old one back gives the old message: nothing else of the message is touched.
pub proof fn wire_expr_of_a_message(
    msg: message::NetworkBodyView,
    one: message::WireExprView,
    two: message::WireExprView,
)
    ensures
        !(msg is Other) ==> msg.with_wire_expr(one).wire_expr() == Some(one),
        msg.with_wire_expr(one).with_wire_expr(two) == msg.with_wire_expr(two),
        msg.wire_expr() matches Some(w) ==> msg.with_wire_expr(w) == msg,
        match msg {
            message::NetworkBodyView::Put { qos, payload, .. } => msg.with_wire_expr(one)
                == (message::NetworkBodyView::Put { wire_expr: one, qos, payload }),
            message::NetworkBodyView::Del { qos, .. } => msg.with_wire_expr(one)
                == (message::NetworkBodyView::Del { wire_expr: one, qos }),
            message::NetworkBodyView::Query { qos, target, parameters, .. } => msg.with_wire_expr(
                one,
            ) == (message::NetworkBodyView::Query { wire_expr: one, qos, target, parameters }),
            message::NetworkBodyView::Response { qos, .. } => msg.with_wire_expr(one)
                == (message::NetworkBodyView::Response { wire_expr: one, qos }),
            message::NetworkBodyView::DeclareSubscriber { .. } => msg.with_wire_expr(one)
                == (message::NetworkBodyView::DeclareSubscriber { wire_expr: one }),
            message::NetworkBodyView::DeclareQueryable { complete, .. } => msg.with_wire_expr(one)
                == (message::NetworkBodyView::DeclareQueryable { wire_expr: one, complete }),
            message::NetworkBodyView::Other => msg.with_wire_expr(one) is Other,
        },
        match msg {
            message::NetworkBodyView::Put { wire_expr, .. } => msg.wire_expr() == Some(wire_expr),
            message::NetworkBodyView::Del { wire_expr, .. } => msg.wire_expr() == Some(wire_expr),
            message::NetworkBodyView::Query { wire_expr, .. } => msg.wire_expr() == Some(wire_expr),
            message::NetworkBodyView::Response { wire_expr, .. } => msg.wire_expr() == Some(
                wire_expr,
            ),
            message::NetworkBodyView::DeclareSubscriber { wire_expr } => msg.wire_expr() == Some(
                wire_expr,
            ),
            message::NetworkBodyView::DeclareQueryable { wire_expr, .. } => msg.wire_expr() == Some(
                wire_expr,
            ),
            message::NetworkBodyView::Other => true,
        },
{
}

/// The words for priorities, congestion controls and query targets.
pub proof fn labels_in_words(
    p: message::Priority,
    c: message::CongestionControl,
    t: message::QueryTarget,
)
    ensures
        p is Control <==> message::priority_label(p) == "control"@,
        p is RealTime <==> message::priority_label(p) == "real_time"@,
        p is InteractiveHigh <==> message::priority_label(p) == "interactive_high"@,
        p is InteractiveLow <==> message::priority_label(p) == "interactive_low"@,
        p is DataHigh <==> message::priority_label(p) == "data_high"@,
        p is Data <==> message::priority_label(p) == "data"@,
        p is DataLow <==> message::priority_label(p) == "data_low"@,
        p is Background <==> message::priority_label(p) == "background"@,
        c is Block <==> message::congestion_control_label(c) == "block"@,
        c is Drop <==> message::congestion_control_label(c) == "drop"@,
        c is BlockFirst <==> message::congestion_control_label(c) == "block_first"@,
        t is BestMatching <==> message::query_target_label(t) == "best_matching"@,
        t is All <==> message::query_target_label(t) == "all"@,
        t is AllComplete <==> message::query_target_label(t) == "all_complete"@,
{
    assert forall|q: message::Priority| message::priority_label(p) == #[trigger]
        message::priority_label(q) implies p == q by {
        message::priority_labels_differ(p, q);
    }
    assert forall|d: message::CongestionControl|
        message::congestion_control_label(c) == #[trigger] message::congestion_control_label(
            d,
        ) implies c == d by {
        message::congestion_control_labels_differ(c, d);
    }
    assert forall|u: message::QueryTarget| message::query_target_label(t) == #[trigger]
        message::query_target_label(u) implies t == u by {
        message::query_target_labels_differ(t, u);
    }
    assert(message::priority_label(message::Priority::Control) == "control"@);
    assert(message::priority_label(message::Priority::RealTime) == "real_time"@);
    assert(message::priority_label(message::Priority::InteractiveHigh) == "interactive_high"@);
    assert(message::priority_label(message::Priority::InteractiveLow) == "interactive_low"@);
    assert(message::priority_label(message::Priority::DataHigh) == "data_high"@);
    assert(message::priority_label(message::Priority::Data) == "data"@);
    assert(message::priority_label(message::Priority::DataLow) == "data_low"@);
    assert(message::priority_label(message::Priority::Background) == "background"@);
    assert(message::congestion_control_label(message::CongestionControl::Block) == "block"@);
    assert(message::congestion_control_label(message::CongestionControl::Drop) == "drop"@);
    assert(message::congestion_control_label(message::CongestionControl::BlockFirst)
        == "block_first"@);
    assert(message::query_target_label(message::QueryTarget::BestMatching) == "best_matching"@);
    assert(message::query_target_label(message::QueryTarget::All) == "all"@);
    assert(message::query_target_label(message::QueryTarget::AllComplete) == "all_complete"@);
}

/// The words of an error name its kind, and the peer, endpoint and reason in full.
pub proof fn words_of_an_error(e: error::HookError)
    ensures
        match e {
            error::HookError::AuthIdsUnavailable { peer_id, reason } => e@.message()
                == "grpc_hook: could not get auth IDs for "@ + peer_id@ + ": "@ + reason@,
            error::HookError::RegisterDenied { peer_id } => e@.message()
                == "grpc_hook: auth_on_register DENIED for peer "@ + peer_id@,
            error::HookError::EndpointMissing => e@.message()
                == "grpc_hook is enabled but `endpoint` is not configured"@,
            error::HookError::InvalidEndpoint { endpoint, reason } => e@.message()
                == "grpc_hook: invalid endpoint '"@ + endpoint@ + "': "@ + reason@,
        },
{
}

/// An error has the parts that its fields hold.
pub proof fn error_is_its_fields(e: error::HookError)
    ensures
        match e {
            error::HookError::AuthIdsUnavailable { peer_id, reason } => {
                &&& e@ matches error::HookErrorView::AuthIdsUnavailable { peer_id: p, reason: r }
                &&& p == peer_id@
                &&& r == reason@
            },
            error::HookError::RegisterDenied { peer_id } => {
                &&& e@ matches error::HookErrorView::RegisterDenied { peer_id: p }
                &&& p == peer_id@
            },
            error::HookError::EndpointMissing => e@ is EndpointMissing,
            error::HookError::InvalidEndpoint { endpoint, reason } => {
                &&& e@ matches error::HookErrorView::InvalidEndpoint { endpoint: p, reason: r }
                &&& p == endpoint@
                &&& r == reason@
            },
        },
{
}

} // verus!
