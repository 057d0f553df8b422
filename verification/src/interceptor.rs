//! The gates that messages of one peer go through: in, by leave of the hook, and out.
use vstd::prelude::*;

use crate::client;
use crate::client::{AuthOnPublishRequest, AuthOnSubscribeRequest, HookClient};
use crate::keyexpr;
use crate::message;
use crate::message::{NetworkBody, WireExpr};
use crate::rewrite;
use crate::rewrite::ReverseRewriteTable;
use crate::text;

verus! {

/// What is known of a peer since its transport was opened.
#[derive(Debug, PartialEq, Eq)]
pub struct PeerMeta {
    pub peer_id: String,
    pub username: String,
    pub cert_cn: String,
    pub link_protocol: String,
    pub interface: String,
}

/// The value of a `PeerMeta`.
pub struct PeerMetaView {
    pub peer_id: Seq<char>,
    pub username: Seq<char>,
    pub cert_cn: Seq<char>,
    pub link_protocol: Seq<char>,
    pub interface: Seq<char>,
}

impl View for PeerMeta {
    type V = PeerMetaView;

    open spec fn view(&self) -> PeerMetaView {
        PeerMetaView {
            peer_id: self.peer_id@,
            username: self.username@,
            cert_cn: self.cert_cn@,
            link_protocol: self.link_protocol@,
            interface: self.interface@,
        }
    }
}

/// The text in `s`, or the empty text.
pub open spec fn text_or_empty(s: Option<&str>) -> Seq<char> {
    match s {
        Some(s) => s@,
        None => Seq::empty(),
    }
}

/// What the hook is asked about a declaration by the peer `meta`.
pub open spec fn subscribe_request(
    meta: PeerMetaView,
    key_expr: Seq<char>,
    kind: Seq<char>,
    reliability: Seq<char>,
    history: bool,
) -> client::SubscribeRequestView {
    client::SubscribeRequestView {
        peer_id: meta.peer_id,
        username: meta.username,
        key_expr,
        kind,
        cert_cn: meta.cert_cn,
        link_protocol: meta.link_protocol,
        interface: meta.interface,
        reliability,
        history,
    }
}

/// What the hook is asked about a message with data, a query or a reply of the peer `meta`.
pub open spec fn publish_request(
    meta: PeerMetaView,
    key_expr: Seq<char>,
    action: Seq<char>,
    payload: Seq<u8>,
    qos: message::QoS,
    query_parameters: Seq<char>,
    query_target: Seq<char>,
) -> client::PublishRequestView {
    client::PublishRequestView {
        peer_id: meta.peer_id,
        username: meta.username,
        key_expr,
        action,
        cert_cn: meta.cert_cn,
        link_protocol: meta.link_protocol,
        interface: meta.interface,
        payload,
        congestion_control: message::congestion_control_label(qos.congestion_control),
        priority: message::priority_label(qos.priority),
        query_parameters,
        query_target,
    }
}

/// What a message needs before it may pass.
#[derive(Debug, PartialEq, Eq)]
pub enum Question {
    /// Nothing: it passes.
    Pass,
    /// The leave to publish, delete, query or reply.
    Publish(AuthOnPublishRequest),
    /// The leave to declare a subscriber or a queryable.
    Subscribe(AuthOnSubscribeRequest),
}

/// The value of a `Question`.
pub enum QuestionView {
    Pass,
    Publish(client::PublishRequestView),
    Subscribe(client::SubscribeRequestView),
}

impl View for Question {
    type V = QuestionView;

    open spec fn view(&self) -> QuestionView {
        match *self {
            Question::Pass => QuestionView::Pass,
            Question::Publish(request) => QuestionView::Publish(request@),
            Question::Subscribe(request) => QuestionView::Subscribe(request@),
        }
    }
}

/// Whether a message under `key` needs the leave of the hook: keys of the router's own
/// administration never do.
pub open spec fn is_gated(key: Seq<char>, msg: message::NetworkBodyView) -> bool {
    !text::is_admin(key) && (msg.is_data() || msg.is_declaration())
}

/// What the hook is asked about a message under `key`.
pub open spec fn question_for(
    hook: HookClient,
    meta: PeerMetaView,
    key: Seq<char>,
    msg: message::NetworkBodyView,
) -> QuestionView {
    if text::is_admin(key) {
        QuestionView::Pass
    } else {
        match msg {
            message::NetworkBodyView::Put { qos, payload, .. } => QuestionView::Publish(
                publish_request(
                    meta,
                    key,
                    "put"@,
                    client::captured(payload, hook.max_payload_bytes),
                    qos,
                    ""@,
                    ""@,
                ),
            ),
            message::NetworkBodyView::Del { qos, .. } => QuestionView::Publish(
                publish_request(meta, key, "delete"@, Seq::empty(), qos, ""@, ""@),
            ),
            message::NetworkBodyView::Query { qos, target, parameters, .. } => {
                QuestionView::Publish(
                    publish_request(
                        meta,
                        key,
                        "query"@,
                        Seq::empty(),
                        qos,
                        parameters,
                        message::query_target_label(target),
                    ),
                )
            },
            message::NetworkBodyView::Response { qos, .. } => QuestionView::Publish(
                publish_request(meta, key, "reply"@, Seq::empty(), qos, ""@, ""@),
            ),
            message::NetworkBodyView::DeclareSubscriber { .. } => QuestionView::Subscribe(
                subscribe_request(meta, key, "subscriber"@, "reliable"@, false),
            ),
            message::NetworkBodyView::DeclareQueryable { complete, .. } => QuestionView::Subscribe(
                subscribe_request(meta, key, "queryable"@, "reliable"@, complete),
            ),
            message::NetworkBodyView::Other => QuestionView::Pass,
        }
    }
}

/// Whether a message passes, given the decision of the hook.
pub open spec fn passes(key: Seq<char>, msg: message::NetworkBodyView, allow: bool) -> bool {
    is_gated(key, msg) ==> allow
}

/// The message after the decision of the hook: only one that the hook let pass is rewritten.
pub open spec fn let_in(
    key: Seq<char>,
    msg: message::NetworkBodyView,
    allow: bool,
    new_key: Option<Seq<char>>,
) -> message::NetworkBodyView {
    if is_gated(key, msg) && allow && new_key is Some {
        msg.rewritten(new_key->0)
    } else {
        msg
    }
}

/// The reverse table after the decision of the hook: a declaration that was let pass under
/// another key is recorded.
pub open spec fn recorded(
    map: rewrite::RewriteMap,
    key: Seq<char>,
    msg: message::NetworkBodyView,
    allow: bool,
    new_key: Option<Seq<char>>,
) -> rewrite::RewriteMap {
    if is_gated(key, msg) && msg.is_declaration() && allow && new_key is Some {
        map.inserted(new_key->0, key)
    } else {
        map
    }
}

/// The key that an outgoing message is looked up by: its whole key where that is known, else the
/// text on the wire of data, queries and replies.
pub open spec fn outgoing_key(full_expr: Option<&str>, msg: message::NetworkBodyView) -> Seq<char> {
    match full_expr {
        Some(key) => key@,
        None => match msg.wire_expr() {
            Some(wire_expr) => if msg.is_data() {
                wire_expr.suffix
            } else {
                Seq::empty()
            },
            None => Seq::empty(),
        },
    }
}

/// The key that the `key` of an outgoing message stands for, if it is to be replaced.
pub open spec fn original_of(
    map: rewrite::RewriteMap,
    key: Seq<char>,
    msg: message::NetworkBodyView,
) -> Option<Seq<char>> {
    if text::is_admin(key) || key.len() == 0 || !msg.is_data() {
        None
    } else {
        map.reversed(key)
    }
}

/// An outgoing message under `key` as the peer gets it: under the key that `key` stands for.
pub open spec fn let_out(
    map: rewrite::RewriteMap,
    key: Seq<char>,
    msg: message::NetworkBodyView,
) -> message::NetworkBodyView {
    match original_of(map, key, msg) {
        Some(original) => msg.rewritten(original),
        None => msg,
    }
}

/// Whether `msg` carries data, a query or a reply.
fn is_data(msg: &NetworkBody) -> (data: bool)
    ensures
        data == msg@.is_data(),
{
    match msg {
        NetworkBody::Put { .. }
        | NetworkBody::Del { .. }
        | NetworkBody::Query { .. }
        | NetworkBody::Response { .. } => true,
        _ => false,
    }
}

/// Whether `msg` declares a subscriber or a queryable.
fn is_declaration(msg: &NetworkBody) -> (declaration: bool)
    ensures
        declaration == msg@.is_declaration(),
{
    match msg {
        NetworkBody::DeclareSubscriber { .. } | NetworkBody::DeclareQueryable { .. } => true,
        _ => false,
    }
}

/// Lets the messages of one peer in, as the hook decides.
#[derive(Debug, PartialEq, Eq)]
pub struct GrpcHookInterceptor {
    pub hook: HookClient,
    pub meta: PeerMeta,
}

impl GrpcHookInterceptor {
    /// The request about a declaration of the given kind.
    pub fn subscribe_req(
        &self,
        key_expr: &str,
        kind: &str,
        reliability: &str,
        history: bool,
    ) -> (request: AuthOnSubscribeRequest)
        ensures
            request@ == subscribe_request(self.meta@, key_expr@, kind@, reliability@, history),
            request.peer_id@ == self.meta.peer_id@,
            request.username@ == self.meta.username@,
            request.key_expr@ == key_expr@,
            request.kind@ == kind@,
            request.cert_cn@ == self.meta.cert_cn@,
            request.link_protocol@ == self.meta.link_protocol@,
            request.interface@ == self.meta.interface@,
            request.reliability@ == reliability@,
            request.history == history,
    {
        AuthOnSubscribeRequest {
            peer_id: self.meta.peer_id.clone(),
            username: self.meta.username.clone(),
            key_expr: key_expr.to_owned(),
            kind: kind.to_owned(),
            cert_cn: self.meta.cert_cn.clone(),
            link_protocol: self.meta.link_protocol.clone(),
            interface: self.meta.interface.clone(),
            reliability: reliability.to_owned(),
            history,
        }
    }

    /// The request about a message with the given action.
    pub fn publish_req(
        &self,
        key_expr: &str,
        action: &str,
        payload: Vec<u8>,
        congestion_control: &str,
        priority: &str,
        query_parameters: &str,
        query_target: &str,
    ) -> (request: AuthOnPublishRequest)
        ensures
            request@ == (client::PublishRequestView {
                peer_id: self.meta.peer_id@,
                username: self.meta.username@,
                key_expr: key_expr@,
                action: action@,
                cert_cn: self.meta.cert_cn@,
                link_protocol: self.meta.link_protocol@,
                interface: self.meta.interface@,
                payload: payload@,
                congestion_control: congestion_control@,
                priority: priority@,
                query_parameters: query_parameters@,
                query_target: query_target@,
            }),
            request.peer_id@ == self.meta.peer_id@,
            request.username@ == self.meta.username@,
            request.key_expr@ == key_expr@,
            request.action@ == action@,
            request.cert_cn@ == self.meta.cert_cn@,
            request.link_protocol@ == self.meta.link_protocol@,
            request.interface@ == self.meta.interface@,
            request.payload@ == payload@,
            request.congestion_control@ == congestion_control@,
            request.priority@ == priority@,
            request.query_parameters@ == query_parameters@,
            request.query_target@ == query_target@,
    {
        AuthOnPublishRequest {
            peer_id: self.meta.peer_id.clone(),
            username: self.meta.username.clone(),
            key_expr: key_expr.to_owned(),
            action: action.to_owned(),
            cert_cn: self.meta.cert_cn.clone(),
            link_protocol: self.meta.link_protocol.clone(),
            interface: self.meta.interface.clone(),
            payload,
            congestion_control: congestion_control.to_owned(),
            priority: priority.to_owned(),
            query_parameters: query_parameters.to_owned(),
            query_target: query_target.to_owned(),
        }
    }

    /// Rewrites `wire_expr` to `new_key`, without the white space at its ends, if that is a key
    /// expression.
    pub fn apply_rewrite(wire_expr: &mut WireExpr, new_key: &str)
        ensures
            final(wire_expr)@ == old(wire_expr)@.rewritten(new_key@),
            keyexpr::is_keyexpr(text::trimmed(new_key@)) ==> {
                &&& final(wire_expr).scope == 0
                &&& final(wire_expr).suffix@ == text::trimmed(new_key@)
                &&& final(wire_expr).mapping == message::Mapping::Sender
            },
            !keyexpr::is_keyexpr(text::trimmed(new_key@)) ==> *final(wire_expr) == *old(wire_expr),
    {
        let trimmed = text::trim(new_key);
        if !trimmed.is_empty() {
            if let Some(key) = keyexpr::parse_keyexpr(trimmed) {
                wire_expr.scope = 0;
                wire_expr.suffix = key;
                wire_expr.mapping = message::Mapping::Sender;
            }
        }
    }

    /// Rewrites the key of `msg` to `new_key`, if that is a key expression.
    pub fn rewrite_message(msg: &mut NetworkBody, new_key: &str)
        ensures
            final(msg)@ == old(msg)@.rewritten(new_key@),
    {
        match msg {
            NetworkBody::Put { wire_expr, .. } => Self::apply_rewrite(wire_expr, new_key),
            NetworkBody::Del { wire_expr, .. } => Self::apply_rewrite(wire_expr, new_key),
            NetworkBody::Query { wire_expr, .. } => Self::apply_rewrite(wire_expr, new_key),
            NetworkBody::Response { wire_expr, .. } => Self::apply_rewrite(wire_expr, new_key),
            NetworkBody::DeclareSubscriber { wire_expr } => {
                Self::apply_rewrite(wire_expr, new_key)
            },
            NetworkBody::DeclareQueryable { wire_expr, .. } => {
                Self::apply_rewrite(wire_expr, new_key)
            },
            NetworkBody::Other => {},
        }
    }

    /// What must be asked of the hook before `msg` may pass. `full_expr` is the whole key of the
    /// message, where it is known.
    pub fn consult(&self, full_expr: Option<&str>, msg: &NetworkBody) -> (question: Question)
        ensures
            question@ == question_for(self.hook, self.meta@, text_or_empty(full_expr), msg@),
            question is Pass <==> !is_gated(text_or_empty(full_expr), msg@),
            question is Pass <==> msg is Other || (text_or_empty(full_expr).len() > 0
                && text_or_empty(full_expr)[0] == '@'),
            question matches Question::Publish(request) ==> {
                &&& msg is Put || msg is Del || msg is Query || msg is Response
                &&& request.key_expr@ == text_or_empty(full_expr)
                &&& request.peer_id@ == self.meta.peer_id@
                &&& request.username@ == self.meta.username@
                &&& request.cert_cn@ == self.meta.cert_cn@
                &&& request.link_protocol@ == self.meta.link_protocol@
                &&& request.interface@ == self.meta.interface@
                &&& msg matches NetworkBody::Put { payload, .. } ==> {
                    &&& request.payload@.is_prefix_of(payload@)
                    &&& payload@.len() <= self.hook.max_payload_bytes ==> request.payload@.len()
                        == payload@.len()
                    &&& payload@.len() > self.hook.max_payload_bytes ==> request.payload@.len()
                        == self.hook.max_payload_bytes
                }
                &&& !(msg is Put) ==> request.payload@.len() == 0
            },
            question matches Question::Subscribe(request) ==> {
                &&& msg is DeclareSubscriber || msg is DeclareQueryable
                &&& request.key_expr@ == text_or_empty(full_expr)
                &&& request.peer_id@ == self.meta.peer_id@
                &&& request.username@ == self.meta.username@
                &&& request.cert_cn@ == self.meta.cert_cn@
                &&& request.link_protocol@ == self.meta.link_protocol@
                &&& request.interface@ == self.meta.interface@
            },
    {
        let key = match full_expr {
            Some(key) => key,
            None => "",
        };
        proof {
            reveal_strlit("");
            assert(key@ =~= text_or_empty(full_expr));
        }
        if text::is_admin_key(key) {
            return Question::Pass;
        }
        match msg {
            NetworkBody::Put { qos, payload, .. } => {
                let shown = self.hook.capture_payload(*payload);
                let priority = message::format_priority(qos.priority);
                let congestion = message::format_congestion_control(qos.congestion_control);
                Question::Publish(
                    self.publish_req(key, "put", shown, congestion, priority, "", ""),
                )
            },
            NetworkBody::Del { qos, .. } => {
                let priority = message::format_priority(qos.priority);
                let congestion = message::format_congestion_control(qos.congestion_control);
                Question::Publish(
                    self.publish_req(key, "delete", Vec::new(), congestion, priority, "", ""),
                )
            },
            NetworkBody::Query { qos, target, parameters, .. } => {
                let priority = message::format_priority(qos.priority);
                let congestion = message::format_congestion_control(qos.congestion_control);
                let target = message::format_query_target(*target);
                Question::Publish(
                    self.publish_req(
                        key,
                        "query",
                        Vec::new(),
                        congestion,
                        priority,
                        parameters.as_str(),
                        target,
                    ),
                )
            },
            NetworkBody::Response { qos, .. } => {
                let priority = message::format_priority(qos.priority);
                let congestion = message::format_congestion_control(qos.congestion_control);
                Question::Publish(
                    self.publish_req(key, "reply", Vec::new(), congestion, priority, "", ""),
                )
            },
            NetworkBody::DeclareSubscriber { .. } => Question::Subscribe(
                self.subscribe_req(key, "subscriber", "reliable", false),
            ),
            NetworkBody::DeclareQueryable { complete, .. } => Question::Subscribe(
                self.subscribe_req(key, "queryable", "reliable", *complete),
            ),
            NetworkBody::Other => Question::Pass,
        }
    }

    /// Carries out the decision of the hook on `msg`: rewrites it if it may pass under another
    /// key, notes in `table` how to undo that if it is a declaration, and tells whether it passes.
    /// What needs no leave passes as it is.
    pub fn intercept(
        &self,
        full_expr: Option<&str>,
        msg: &mut NetworkBody,
        table: &mut ReverseRewriteTable,
        allow: bool,
        new_key: Option<String>,
    ) -> (forward: bool)
        ensures
            forward == passes(text_or_empty(full_expr), old(msg)@, allow),
            final(msg)@ == let_in(
                text_or_empty(full_expr),
                old(msg)@,
                allow,
                client::text_of(new_key),
            ),
            final(table)@ == recorded(
                old(table)@,
                text_or_empty(full_expr),
                old(msg)@,
                allow,
                client::text_of(new_key),
            ),
            old(table)@.well_formed() ==> final(table)@.well_formed(),
            old(msg)@ is Other || (text_or_empty(full_expr).len() > 0 && text_or_empty(full_expr)[0]
                == '@') ==> forward && *final(msg) == *old(msg) && final(table)@ == old(table)@,
            !(old(msg)@ is Other) && !(text_or_empty(full_expr).len() > 0 && text_or_empty(
                full_expr,
            )[0] == '@') ==> {
                &&& forward <==> allow
                &&& !allow || new_key is None ==> *final(msg) == *old(msg) && final(table)@
                    == old(table)@
                &&& allow && new_key is Some && keyexpr::is_keyexpr(text::trimmed(new_key->0@))
                    ==> final(msg)@ == old(msg)@.with_wire_expr(
                    message::WireExprView {
                        scope: 0,
                        suffix: text::trimmed(new_key->0@),
                        mapping: message::Mapping::Sender,
                    },
                )
                &&& allow && new_key is Some && !keyexpr::is_keyexpr(text::trimmed(new_key->0@))
                    ==> final(msg)@ == old(msg)@
                &&& allow && new_key is Some && (old(msg)@ is DeclareSubscriber
                    || old(msg)@ is DeclareQueryable) ==> final(table)@ == old(table)@.inserted(
                    new_key->0@,
                    text_or_empty(full_expr),
                )
                &&& !(old(msg)@ is DeclareSubscriber) && !(old(msg)@ is DeclareQueryable)
                    ==> final(table)@ == old(table)@
            },
    {
        let key = match full_expr {
            Some(key) => key,
            None => "",
        };
        proof {
            reveal_strlit("");
            assert(key@ =~= text_or_empty(full_expr));
        }
        if text::is_admin_key(key) || !(is_data(msg) || is_declaration(msg)) {
            return true;
        }
        if !allow {
            return false;
        }
        if let Some(new_key) = new_key {
            if is_declaration(msg) {
                table.insert(new_key.as_str(), key);
            }
            Self::rewrite_message(msg, new_key.as_str());
        }
        true
    }
}

/// Lets the messages to one peer out, under the keys that the peer knows.
#[derive(Debug, PartialEq, Eq)]
pub struct GrpcHookEgressInterceptor;

impl GrpcHookEgressInterceptor {
    /// The key that an outgoing message is looked up by.
    fn outgoing_key_of(full_expr: Option<&str>, msg: &NetworkBody) -> (key: String)
        ensures
            key@ == outgoing_key(full_expr, msg@),
            full_expr matches Some(k) ==> key@ == k@,
    {
        match full_expr {
            Some(key) => key.to_owned(),
            None => match msg {
                NetworkBody::Put { wire_expr, .. }
                | NetworkBody::Del { wire_expr, .. }
                | NetworkBody::Query { wire_expr, .. }
                | NetworkBody::Response { wire_expr, .. } => wire_expr.suffix.clone(),
                _ => String::new(),
            },
        }
    }

    /// Puts the original key into an outgoing message, if `table` knows it. Without access to the
    /// table the message stays as it is. Every message passes.
    pub fn intercept(
        full_expr: Option<&str>,
        msg: &mut NetworkBody,
        table: Option<&ReverseRewriteTable>,
    ) -> (forward: bool)
        ensures
            forward,
            table is None ==> final(msg)@ == old(msg)@,
            table matches Some(t) ==> final(msg)@ == let_out(
                t@,
                outgoing_key(full_expr, old(msg)@),
                old(msg)@,
            ),
            old(msg)@ is DeclareSubscriber || old(msg)@ is DeclareQueryable || old(msg)@ is Other
                ==> final(msg)@ == old(msg)@,
            old(msg)@ is Put || old(msg)@ is Del || old(msg)@ is Query || old(msg)@ is Response
                ==> match (full_expr, table) {
                (Some(key), Some(table)) => {
                    let original = table@.reversed(key@);
                    if key@.len() > 0 && key@[0] != '@' && original is Some && keyexpr::is_keyexpr(
                        text::trimmed(original->0),
                    ) {
                        final(msg)@ == old(msg)@.with_wire_expr(
                            message::WireExprView {
                                scope: 0,
                                suffix: text::trimmed(original->0),
                                mapping: message::Mapping::Sender,
                            },
                        )
                    } else {
                        final(msg)@ == old(msg)@
                    }
                },
                _ => true,
            },
    {
        let key = Self::outgoing_key_of(full_expr, msg);
        if text::is_admin_key(key.as_str()) || key.as_str().is_empty() {
            return true;
        }
        let original = match table {
            Some(table) => table.reverse(key.as_str()),
            None => None,
        };
        if let Some(new_key) = original {
            if is_data(msg) {
                GrpcHookInterceptor::rewrite_message(msg, new_key.as_str());
            }
        }
        true
    }
}

} // verus!
