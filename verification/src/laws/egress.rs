//! What becomes of a message that leaves for a peer.
use vstd::prelude::*;

use crate::interceptor;
use crate::keyexpr;
use crate::message;
use crate::rewrite;
use crate::text;

verus! {

/// A message is looked up by its whole key wherever that is known, whatever it says on the wire.
/// Only where it is not known does the text on the wire count, of data, queries and replies.
pub proof fn known_key_is_looked_up(
    key: &str,
    msg: message::NetworkBodyView,
    wire_expr: message::WireExprView,
)
    ensures
        interceptor::outgoing_key(Some(key), msg) == key@,
        interceptor::outgoing_key(Some(key), msg.with_wire_expr(wire_expr)) == key@,
        match msg {
            message::NetworkBodyView::Put { wire_expr: w, .. } => interceptor::outgoing_key(
                None,
                msg,
            ) == w.suffix,
            message::NetworkBodyView::Del { wire_expr: w, .. } => interceptor::outgoing_key(
                None,
                msg,
            ) == w.suffix,
            message::NetworkBodyView::Query { wire_expr: w, .. } => interceptor::outgoing_key(
                None,
                msg,
            ) == w.suffix,
            message::NetworkBodyView::Response { wire_expr: w, .. } => interceptor::outgoing_key(
                None,
                msg,
            ) == w.suffix,
            _ => interceptor::outgoing_key(None, msg).len() == 0,
        },
{
}

/// A message with data, a query or a reply leaves under the key that its own key stands for, if that
/// is a key expression. It says the whole of that key, and nothing else of it changes.
pub proof fn data_leaves_under_the_original_key(
    map: rewrite::RewriteMap,
    key: Seq<char>,
    msg: message::NetworkBodyView,
)
    requires
        msg is Put || msg is Del || msg is Query || msg is Response,
        key.len() > 0,
        key[0] != '@',
        map.reversed(key) is Some,
        keyexpr::is_keyexpr(text::trimmed(map.reversed(key)->0)),
    ensures
        interceptor::let_out(map, key, msg).wire_expr() == Some(
            message::WireExprView {
                scope: 0,
                suffix: text::trimmed(map.reversed(key)->0),
                mapping: message::Mapping::Sender,
            },
        ),
        interceptor::let_out(map, key, msg) == msg.with_wire_expr(
            message::WireExprView {
                scope: 0,
                suffix: text::trimmed(map.reversed(key)->0),
                mapping: message::Mapping::Sender,
            },
        ),
{
}

/// A message leaves as it is where it carries no data, where its key is empty or starts with `@`,
/// where the key stands for no other, and where what it stands for is no key expression.
pub proof fn other_messages_leave_as_they_are(
    map: rewrite::RewriteMap,
    key: Seq<char>,
    msg: message::NetworkBodyView,
)
    requires
        ({
            ||| msg is DeclareSubscriber || msg is DeclareQueryable || msg is Other
            ||| key.len() == 0
            ||| key[0] == '@'
            ||| map.reversed(key) is None
            ||| !keyexpr::is_keyexpr(text::trimmed(map.reversed(key)->0))
        }),
    ensures
        interceptor::let_out(map, key, msg) == msg,
{
}

/// From the record to the peer: once a key without a wildcard is recorded as rewritten, every message
/// with data whose whole key is the rewritten one leaves under the recorded key, whatever it said on
/// the wire.
pub proof fn recorded_key_reaches_the_peer(
    map: rewrite::RewriteMap,
    rewritten: &str,
    original: Seq<char>,
    msg: message::NetworkBodyView,
)
    requires
        msg is Put || msg is Del || msg is Query || msg is Response,
        rewritten@.len() > 0,
        rewritten@[0] != '@',
        rewritten@ != original,
        !original.contains('*'),
        !original.contains('+'),
        !original.contains('$'),
        keyexpr::is_keyexpr(original),
        text::trimmed(original) == original,
        forall|i: int| 0 <= i < map.exact.len() ==> (#[trigger] map.exact[i]).0 != rewritten@,
    ensures
        interceptor::let_out(
            map.inserted(rewritten@, original),
            interceptor::outgoing_key(Some(rewritten), msg),
            msg,
        ) == msg.with_wire_expr(
            message::WireExprView {
                scope: 0,
                suffix: original,
                mapping: message::Mapping::Sender,
            },
        ),
{
    assert forall|i: int| 0 <= i < original.len() implies #[trigger] original[i] != '*'
        && original[i] != '+' && original[i] != '$' by {
        assert(original.contains(original[i]));
    }
    crate::laws::table::record_of_a_single_key(map, rewritten@, original, original);
}

} // verus!
