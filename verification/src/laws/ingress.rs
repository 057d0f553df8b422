//! What becomes of a message that a peer sends.
use vstd::prelude::*;

use crate::interceptor;
use crate::keyexpr;
use crate::message;
use crate::rewrite;
use crate::text;

verus! {

/// What passes: a message that needs leave exactly if it is allowed, and every other.
pub proof fn only_what_is_allowed_passes(
    key: Seq<char>,
    msg: message::NetworkBodyView,
    allow: bool,
)
    ensures
        msg is Other || (key.len() > 0 && key[0] == '@') ==> interceptor::passes(key, msg, allow),
        !(msg is Other) && !(key.len() > 0 && key[0] == '@') ==> (interceptor::passes(
            key,
            msg,
            allow,
        ) <==> allow),
{
}

/// An allowed message of any kind, data as well as declarations, travels on under the key that the
/// hook gave, with a wildcard or without, if that is a key expression once white space is off its
/// ends. It says the whole of that key, and nothing else of it changes.
pub proof fn allowed_message_travels_under_the_new_key(
    key: Seq<char>,
    msg: message::NetworkBodyView,
    new_key: Seq<char>,
)
    requires
        !(msg is Other),
        !(key.len() > 0 && key[0] == '@'),
        keyexpr::is_keyexpr(text::trimmed(new_key)),
    ensures
        interceptor::let_in(key, msg, true, Some(new_key)).wire_expr() == Some(
            message::WireExprView {
                scope: 0,
                suffix: text::trimmed(new_key),
                mapping: message::Mapping::Sender,
            },
        ),
        interceptor::let_in(key, msg, true, Some(new_key)) == msg.with_wire_expr(
            message::WireExprView {
                scope: 0,
                suffix: text::trimmed(new_key),
                mapping: message::Mapping::Sender,
            },
        ),
{
}

/// A message stays as it is where it is denied, where it needs no leave, where the hook gave no
/// key, and where the key that the hook gave is no key expression.
pub proof fn message_stays_without_a_new_key(
    key: Seq<char>,
    msg: message::NetworkBodyView,
    allow: bool,
    new_key: Option<Seq<char>>,
)
    requires
        ({
            ||| !allow
            ||| new_key is None
            ||| msg is Other
            ||| key.len() > 0 && key[0] == '@'
            ||| !keyexpr::is_keyexpr(text::trimmed(new_key->0))
        }),
    ensures
        interceptor::let_in(key, msg, allow, new_key) == msg,
{
}

/// The key that a message travels on under depends on the key that the hook gave alone: two messages
/// of whatever kinds and keys that are allowed under it say the same.
pub proof fn new_key_is_the_same_for_all(
    one_key: Seq<char>,
    one: message::NetworkBodyView,
    two_key: Seq<char>,
    two: message::NetworkBodyView,
    new_key: Seq<char>,
)
    requires
        !(one is Other),
        !(two is Other),
        !(one_key.len() > 0 && one_key[0] == '@'),
        !(two_key.len() > 0 && two_key[0] == '@'),
        keyexpr::is_keyexpr(text::trimmed(new_key)),
    ensures
        interceptor::let_in(one_key, one, true, Some(new_key)).wire_expr() == interceptor::let_in(
            two_key,
            two,
            true,
            Some(new_key),
        ).wire_expr(),
{
}

/// An allowed declaration under a new key is recorded with the key of the peer, whether or not the
/// new key is taken. Afterwards the new key, as the hook gave it, answers with the key of the peer,
/// unless the key of the peer has a wildcard or the new key was recorded before.
pub proof fn allowed_declaration_is_recorded(
    map: rewrite::RewriteMap,
    key: Seq<char>,
    msg: message::NetworkBodyView,
    new_key: Seq<char>,
)
    requires
        msg is DeclareSubscriber || msg is DeclareQueryable,
        !(key.len() > 0 && key[0] == '@'),
    ensures
        interceptor::recorded(map, key, msg, true, Some(new_key)) == map.inserted(new_key, key),
        ({
            &&& new_key != key
            &&& !key.contains('*')
            &&& !key.contains('+')
            &&& !key.contains('$')
            &&& forall|i: int| 0 <= i < map.exact.len() ==> (#[trigger] map.exact[i]).0 != new_key
        }) ==> interceptor::recorded(map, key, msg, true, Some(new_key)).reversed(new_key) == Some(
            key,
        ),
{
    if !key.contains('*') && !key.contains('+') && !key.contains('$') && new_key != key {
        assert forall|i: int| 0 <= i < key.len() implies #[trigger] key[i] != '*' && key[i] != '+'
            && key[i] != '$' by {
            assert(key.contains(key[i]));
        }
        crate::laws::table::record_of_a_single_key(map, new_key, key, key);
    }
}

/// Nothing is recorded where a message is denied, is no declaration, is under a key that starts with
/// `@`, or got no key from the hook.
pub proof fn nothing_else_is_recorded(
    map: rewrite::RewriteMap,
    key: Seq<char>,
    msg: message::NetworkBodyView,
    allow: bool,
    new_key: Option<Seq<char>>,
)
    requires
        ({
            ||| !allow
            ||| new_key is None
            ||| key.len() > 0 && key[0] == '@'
            ||| !(msg is DeclareSubscriber) && !(msg is DeclareQueryable)
        }),
    ensures
        interceptor::recorded(map, key, msg, allow, new_key) == map,
{
}

} // verus!
