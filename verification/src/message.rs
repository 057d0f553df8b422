//! The parts of a network message that the hook reads and rewrites.
use vstd::prelude::*;

use crate::keyexpr;
use crate::text;

verus! {

/// Which side of a link declared the scope of a wire expression.
#[derive(Clone, Copy, Debug, PartialEq, Eq, Structural)]
pub enum Mapping {
    Receiver,
    Sender,
}

/// A key expression as it travels: a declared scope and a text that follows it. Scope 0 is the
/// global one: the text is then the whole key expression.
#[derive(Debug, PartialEq, Eq)]
pub struct WireExpr {
    pub scope: u16,
    pub suffix: String,
    pub mapping: Mapping,
}

/// The value of a `WireExpr`.
pub struct WireExprView {
    pub scope: u16,
    pub suffix: Seq<char>,
    pub mapping: Mapping,
}

impl View for WireExpr {
    type V = WireExprView;

    open spec fn view(&self) -> WireExprView {
        WireExprView { scope: self.scope, suffix: self.suffix@, mapping: self.mapping }
    }
}

impl WireExprView {
    /// The expression that carries the whole of `key`.
    pub open spec fn global(key: Seq<char>) -> WireExprView {
        WireExprView { scope: 0, suffix: key, mapping: Mapping::Sender }
    }

    /// The expression after a rewrite to `new_key`: white space at its ends does not count, and
    /// what is no key expression is not taken.
    pub open spec fn rewritten(self, new_key: Seq<char>) -> WireExprView {
        let key = text::trimmed(new_key);
        if keyexpr::is_keyexpr(key) {
            WireExprView::global(key)
        } else {
            self
        }
    }
}

/// How urgent a message is.
#[derive(Clone, Copy, Debug, PartialEq, Eq, Structural)]
pub enum Priority {
    Control,
    RealTime,
    InteractiveHigh,
    InteractiveLow,
    DataHigh,
    Data,
    DataLow,
    Background,
}

/// What a full queue does to a message.
#[derive(Clone, Copy, Debug, PartialEq, Eq, Structural)]
pub enum CongestionControl {
    Drop,
    Block,
    BlockFirst,
}

/// Which queryables a query is for.
#[derive(Clone, Copy, Debug, PartialEq, Eq, Structural)]
pub enum QueryTarget {
    BestMatching,
    All,
    AllComplete,
}

/// The quality of service asked for a message.
#[derive(Clone, Copy, Debug, PartialEq, Eq, Structural)]
pub struct QoS {
    pub priority: Priority,
    pub congestion_control: CongestionControl,
}

/// A network message, by what the hook reads of it.
#[derive(Debug, PartialEq, Eq)]
pub enum NetworkBody<'a> {
    /// A publication.
    Put { wire_expr: WireExpr, qos: QoS, payload: &'a [u8] },
    /// A deletion.
    Del { wire_expr: WireExpr, qos: QoS },
    /// A query.
    Query { wire_expr: WireExpr, qos: QoS, target: QueryTarget, parameters: String },
    /// A reply to a query.
    Response { wire_expr: WireExpr, qos: QoS },
    /// The declaration of a subscriber.
    DeclareSubscriber { wire_expr: WireExpr },
    /// The declaration of a queryable.
    DeclareQueryable { wire_expr: WireExpr, complete: bool },
    /// Any other message.
    Other,
}

/// The value of a `NetworkBody`.
pub enum NetworkBodyView {
    Put { wire_expr: WireExprView, qos: QoS, payload: Seq<u8> },
    Del { wire_expr: WireExprView, qos: QoS },
    Query { wire_expr: WireExprView, qos: QoS, target: QueryTarget, parameters: Seq<char> },
    Response { wire_expr: WireExprView, qos: QoS },
    DeclareSubscriber { wire_expr: WireExprView },
    DeclareQueryable { wire_expr: WireExprView, complete: bool },
    Other,
}

impl<'a> View for NetworkBody<'a> {
    type V = NetworkBodyView;

    open spec fn view(&self) -> NetworkBodyView {
        match *self {
            NetworkBody::Put { wire_expr, qos, payload } => NetworkBodyView::Put {
                wire_expr: wire_expr@,
                qos,
                payload: payload@,
            },
            NetworkBody::Del { wire_expr, qos } => NetworkBodyView::Del {
                wire_expr: wire_expr@,
                qos,
            },
            NetworkBody::Query { wire_expr, qos, target, parameters } => NetworkBodyView::Query {
                wire_expr: wire_expr@,
                qos,
                target,
                parameters: parameters@,
            },
            NetworkBody::Response { wire_expr, qos } => NetworkBodyView::Response {
                wire_expr: wire_expr@,
                qos,
            },
            NetworkBody::DeclareSubscriber { wire_expr } => NetworkBodyView::DeclareSubscriber {
                wire_expr: wire_expr@,
            },
            NetworkBody::DeclareQueryable { wire_expr, complete } => {
                NetworkBodyView::DeclareQueryable { wire_expr: wire_expr@, complete }
            },
            NetworkBody::Other => NetworkBodyView::Other,
        }
    }
}

impl NetworkBodyView {
    /// The wire expression of the message, if it is one that the hook knows.
    pub open spec fn wire_expr(self) -> Option<WireExprView> {
        match self {
            NetworkBodyView::Put { wire_expr, .. } => Some(wire_expr),
            NetworkBodyView::Del { wire_expr, .. } => Some(wire_expr),
            NetworkBodyView::Query { wire_expr, .. } => Some(wire_expr),
            NetworkBodyView::Response { wire_expr, .. } => Some(wire_expr),
            NetworkBodyView::DeclareSubscriber { wire_expr } => Some(wire_expr),
            NetworkBodyView::DeclareQueryable { wire_expr, .. } => Some(wire_expr),
            NetworkBodyView::Other => None,
        }
    }

    /// Whether the message carries data, a query or a reply.
    pub open spec fn is_data(self) -> bool {
        self is Put || self is Del || self is Query || self is Response
    }

    /// Whether the message declares a subscriber or a queryable.
    pub open spec fn is_declaration(self) -> bool {
        self is DeclareSubscriber || self is DeclareQueryable
    }

    /// The message with another wire expression and all else the same.
    pub open spec fn with_wire_expr(self, new: WireExprView) -> NetworkBodyView {
        match self {
            NetworkBodyView::Put { wire_expr, qos, payload } => NetworkBodyView::Put {
                wire_expr: new,
                qos,
                payload,
            },
            NetworkBodyView::Del { wire_expr, qos } => NetworkBodyView::Del { wire_expr: new, qos },
            NetworkBodyView::Query { wire_expr, qos, target, parameters } => {
                NetworkBodyView::Query { wire_expr: new, qos, target, parameters }
            },
            NetworkBodyView::Response { wire_expr, qos } => NetworkBodyView::Response {
                wire_expr: new,
                qos,
            },
            NetworkBodyView::DeclareSubscriber { wire_expr } => {
                NetworkBodyView::DeclareSubscriber { wire_expr: new }
            },
            NetworkBodyView::DeclareQueryable { wire_expr, complete } => {
                NetworkBodyView::DeclareQueryable { wire_expr: new, complete }
            },
            NetworkBodyView::Other => NetworkBodyView::Other,
        }
    }

    /// The message after its key is rewritten to `new_key`.
    pub open spec fn rewritten(self, new_key: Seq<char>) -> NetworkBodyView {
        match self.wire_expr() {
            Some(wire_expr) => self.with_wire_expr(wire_expr.rewritten(new_key)),
            None => self,
        }
    }
}

/// The label of a priority.
pub open spec fn priority_label(p: Priority) -> Seq<char> {
    match p {
        Priority::Control => "control"@,
        Priority::RealTime => "real_time"@,
        Priority::InteractiveHigh => "interactive_high"@,
        Priority::InteractiveLow => "interactive_low"@,
        Priority::DataHigh => "data_high"@,
        Priority::Data => "data"@,
        Priority::DataLow => "data_low"@,
        Priority::Background => "background"@,
    }
}

/// The label of a priority, as hook requests carry it.
pub fn format_priority(p: Priority) -> (label: &'static str)
    ensures
        label@ == priority_label(p),
{
    match p {
        Priority::Control => "control",
        Priority::RealTime => "real_time",
        Priority::InteractiveHigh => "interactive_high",
        Priority::InteractiveLow => "interactive_low",
        Priority::DataHigh => "data_high",
        Priority::Data => "data",
        Priority::DataLow => "data_low",
        Priority::Background => "background",
    }
}

/// The label of a congestion control.
pub open spec fn congestion_control_label(c: CongestionControl) -> Seq<char> {
    match c {
        CongestionControl::Block => "block"@,
        CongestionControl::Drop => "drop"@,
        CongestionControl::BlockFirst => "block_first"@,
    }
}

/// The label of a congestion control, as hook requests carry it.
pub fn format_congestion_control(c: CongestionControl) -> (label: &'static str)
    ensures
        label@ == congestion_control_label(c),
{
    match c {
        CongestionControl::Block => "block",
        CongestionControl::Drop => "drop",
        CongestionControl::BlockFirst => "block_first",
    }
}

/// The label of a query target.
pub open spec fn query_target_label(t: QueryTarget) -> Seq<char> {
    match t {
        QueryTarget::BestMatching => "best_matching"@,
        QueryTarget::All => "all"@,
        QueryTarget::AllComplete => "all_complete"@,
    }
}

/// The label of a query target, as hook requests carry it.
pub fn format_query_target(t: QueryTarget) -> (label: &'static str)
    ensures
        label@ == query_target_label(t),
{
    match t {
        QueryTarget::BestMatching => "best_matching",
        QueryTarget::All => "all",
        QueryTarget::AllComplete => "all_complete",
    }
}

/// A priority can be told from its label.
pub proof fn priority_labels_differ(a: Priority, b: Priority)
    requires
        priority_label(a) == priority_label(b),
    ensures
        a == b,
{
    reveal_strlit("control");
    assert("control"@.len() == 7);
    reveal_strlit("real_time");
    assert("real_time"@.len() == 9);
    reveal_strlit("interactive_high");
    assert("interactive_high"@.len() == 16);
    reveal_strlit("interactive_low");
    assert("interactive_low"@.len() == 15);
    reveal_strlit("data_high");
    assert("data_high"@.len() == 9);
    reveal_strlit("data");
    assert("data"@.len() == 4);
    reveal_strlit("data_low");
    assert("data_low"@.len() == 8);
    reveal_strlit("background");
    assert("background"@.len() == 10);
    assert("real_time"@[0] != "data_high"@[0]);
}

/// A congestion control can be told from its label.
pub proof fn congestion_control_labels_differ(a: CongestionControl, b: CongestionControl)
    requires
        congestion_control_label(a) == congestion_control_label(b),
    ensures
        a == b,
{
    reveal_strlit("block");
    assert("block"@.len() == 5);
    reveal_strlit("drop");
    assert("drop"@.len() == 4);
    reveal_strlit("block_first");
    assert("block_first"@.len() == 11);
}

/// A query target can be told from its label.
pub proof fn query_target_labels_differ(a: QueryTarget, b: QueryTarget)
    requires
        query_target_label(a) == query_target_label(b),
    ensures
        a == b,
{
    reveal_strlit("best_matching");
    assert("best_matching"@.len() == 13);
    reveal_strlit("all");
    assert("all"@.len() == 3);
    reveal_strlit("all_complete");
    assert("all_complete"@.len() == 12);
}

} // verus!
