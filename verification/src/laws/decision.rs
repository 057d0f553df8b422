//! What answers, and their absence, decide.
use vstd::prelude::*;

use crate::client;

verus! {

/// An answer decides by what it says alone: whatever the hook does without an answer, it allows
/// what the server allows, denies what the server denies, and hands on the key of the server.
pub proof fn answer_decides(
    hook: client::HookClient,
    registered: client::AuthOnRegisterResponse,
    declared: client::AuthOnSubscribeResponse,
    published: client::AuthOnPublishResponse,
)
    ensures
        hook.register_decision(client::CallOutcome::Answered(registered)) == registered.allow,
        hook.subscribe_decision(client::CallOutcome::Answered(declared)).0 == declared.allow,
        hook.publish_decision(client::CallOutcome::Answered(published)).0 == published.allow,
        match declared.rewritten_key_expr {
            Some(key) => hook.subscribe_decision(client::CallOutcome::Answered(declared)).1 == Some(
                key@,
            ),
            None => hook.subscribe_decision(client::CallOutcome::Answered(declared)).1 is None,
        },
        match published.rewritten_key_expr {
            Some(key) => hook.publish_decision(client::CallOutcome::Answered(published)).1 == Some(
                key@,
            ),
            None => hook.publish_decision(client::CallOutcome::Answered(published)).1 is None,
        },
{
}

/// Without an answer it does not matter why there is none, nor what else the hook is set to: it is
/// allowed exactly if the hook fails open, and under the key that it has.
pub proof fn reason_for_silence_does_not_matter(
    hook: client::HookClient,
    registered: client::CallOutcome<client::AuthOnRegisterResponse>,
    declared: client::CallOutcome<client::AuthOnSubscribeResponse>,
    published: client::CallOutcome<client::AuthOnPublishResponse>,
)
    requires
        registered is Refused || registered is TimedOut || registered is Panicked,
        declared is Refused || declared is TimedOut || declared is Panicked,
        published is Refused || published is TimedOut || published is Panicked,
    ensures
        hook.register_decision(registered) <==> hook.fail_open,
        hook.subscribe_decision(declared).0 <==> hook.fail_open,
        hook.subscribe_decision(declared).1 is None,
        hook.publish_decision(published).0 <==> hook.fail_open,
        hook.publish_decision(published).1 is None,
{
}

} // verus!
