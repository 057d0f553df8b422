//! What is asked of the hook server, and what its answer, or the lack of one, means.
use vstd::prelude::*;

verus! {

/// Asks whether a peer may connect.
#[derive(Debug, PartialEq, Eq)]
pub struct AuthOnRegisterRequest {
    pub peer_id: String,
    pub cert_cn: String,
    pub username: String,
    pub link_protocol: String,
    pub interface: String,
    pub hmac: Vec<u8>,
    pub nonce: u64,
}

/// The value of an `AuthOnRegisterRequest`.
pub struct RegisterRequestView {
    pub peer_id: Seq<char>,
    pub cert_cn: Seq<char>,
    pub username: Seq<char>,
    pub link_protocol: Seq<char>,
    pub interface: Seq<char>,
    pub hmac: Seq<u8>,
    pub nonce: u64,
}

impl View for AuthOnRegisterRequest {
    type V = RegisterRequestView;

    open spec fn view(&self) -> RegisterRequestView {
        RegisterRequestView {
            peer_id: self.peer_id@,
            cert_cn: self.cert_cn@,
            username: self.username@,
            link_protocol: self.link_protocol@,
            interface: self.interface@,
            hmac: self.hmac@,
            nonce: self.nonce,
        }
    }
}

/// Asks whether a peer may declare a subscriber or a queryable.
#[derive(Debug, PartialEq, Eq)]
pub struct AuthOnSubscribeRequest {
    pub peer_id: String,
    pub username: String,
    pub key_expr: String,
    pub kind: String,
    pub cert_cn: String,
    pub link_protocol: String,
    pub interface: String,
    pub reliability: String,
    pub history: bool,
}

/// The value of an `AuthOnSubscribeRequest`.
pub struct SubscribeRequestView {
    pub peer_id: Seq<char>,
    pub username: Seq<char>,
    pub key_expr: Seq<char>,
    pub kind: Seq<char>,
    pub cert_cn: Seq<char>,
    pub link_protocol: Seq<char>,
    pub interface: Seq<char>,
    pub reliability: Seq<char>,
    pub history: bool,
}

impl View for AuthOnSubscribeRequest {
    type V = SubscribeRequestView;

    open spec fn view(&self) -> SubscribeRequestView {
        SubscribeRequestView {
            peer_id: self.peer_id@,
            username: self.username@,
            key_expr: self.key_expr@,
            kind: self.kind@,
            cert_cn: self.cert_cn@,
            link_protocol: self.link_protocol@,
            interface: self.interface@,
            reliability: self.reliability@,
            history: self.history,
        }
    }
}

/// Asks whether a peer may publish, delete, query or reply.
#[derive(Debug, PartialEq, Eq)]
pub struct AuthOnPublishRequest {
    pub peer_id: String,
    pub username: String,
    pub key_expr: String,
    pub action: String,
    pub cert_cn: String,
    pub link_protocol: String,
    pub interface: String,
    pub payload: Vec<u8>,
    pub congestion_control: String,
    pub priority: String,
    pub query_parameters: String,
    pub query_target: String,
}

/// The value of an `AuthOnPublishRequest`.
pub struct PublishRequestView {
    pub peer_id: Seq<char>,
    pub username: Seq<char>,
    pub key_expr: Seq<char>,
    pub action: Seq<char>,
    pub cert_cn: Seq<char>,
    pub link_protocol: Seq<char>,
    pub interface: Seq<char>,
    pub payload: Seq<u8>,
    pub congestion_control: Seq<char>,
    pub priority: Seq<char>,
    pub query_parameters: Seq<char>,
    pub query_target: Seq<char>,
}

impl View for AuthOnPublishRequest {
    type V = PublishRequestView;

    open spec fn view(&self) -> PublishRequestView {
        PublishRequestView {
            peer_id: self.peer_id@,
            username: self.username@,
            key_expr: self.key_expr@,
            action: self.action@,
            cert_cn: self.cert_cn@,
            link_protocol: self.link_protocol@,
            interface: self.interface@,
            payload: self.payload@,
            congestion_control: self.congestion_control@,
            priority: self.priority@,
            query_parameters: self.query_parameters@,
            query_target: self.query_target@,
        }
    }
}

/// The answer to an `AuthOnRegisterRequest`.
#[derive(Debug, PartialEq, Eq)]
pub struct AuthOnRegisterResponse {
    pub allow: bool,
}

/// The answer to an `AuthOnSubscribeRequest`.
#[derive(Debug, PartialEq, Eq)]
pub struct AuthOnSubscribeResponse {
    pub allow: bool,
    pub rewritten_key_expr: Option<String>,
}

/// The answer to an `AuthOnPublishRequest`.
#[derive(Debug, PartialEq, Eq)]
pub struct AuthOnPublishResponse {
    pub allow: bool,
    pub rewritten_key_expr: Option<String>,
}

/// How a call of the hook server ended.
#[derive(Debug, PartialEq, Eq)]
pub enum CallOutcome<R> {
    /// The server answered.
    Answered(R),
    /// The call ended with an error status.
    Refused,
    /// No answer came in time.
    TimedOut,
    /// The thread that waited for the answer panicked.
    Panicked,
}

/// The kind of runtime that a call is made from.
#[derive(Clone, Copy, Debug, PartialEq, Eq, Structural)]
pub enum RuntimeFlavor {
    /// All tasks run on one thread.
    CurrentThread,
    /// Tasks run on several worker threads.
    MultiThread,
}

/// Where to wait for the answer to a call.
#[derive(Clone, Copy, Debug, PartialEq, Eq, Structural)]
pub enum WaitStrategy {
    /// On a thread made for the call.
    ScopedThread,
    /// On the calling worker thread, which hands its other tasks over first.
    BlockInPlace,
}

/// Where to wait for an answer: a worker thread of a runtime with a single thread cannot hand
/// its tasks over.
pub fn wait_strategy(flavor: RuntimeFlavor) -> (strategy: WaitStrategy)
    ensures
        strategy == WaitStrategy::ScopedThread <==> flavor == RuntimeFlavor::CurrentThread,
        strategy == WaitStrategy::BlockInPlace <==> flavor == RuntimeFlavor::MultiThread,
{
    match flavor {
        RuntimeFlavor::CurrentThread => WaitStrategy::ScopedThread,
        RuntimeFlavor::MultiThread => WaitStrategy::BlockInPlace,
    }
}

/// The text in `s`, if there is one.
pub open spec fn text_of(s: Option<String>) -> Option<Seq<char>> {
    match s {
        Some(s) => Some(s@),
        None => None,
    }
}

/// The part of `payload` that is shown to the hook: at most the first `max` bytes.
pub open spec fn captured(payload: Seq<u8>, max: usize) -> Seq<u8> {
    if payload.len() <= max {
        payload
    } else {
        payload.take(max as int)
    }
}

/// How the hook server is called.
#[derive(Clone, Copy, Debug, PartialEq, Eq, Structural)]
pub struct HookClient {
    /// How long to wait for an answer, in milliseconds.
    pub timeout_ms: u64,
    /// What is decided without an answer.
    pub fail_open: bool,
    /// How many bytes of a payload are shown to the hook.
    pub max_payload_bytes: usize,
}

impl HookClient {
    /// Whether a peer may connect, given how the call ended.
    pub open spec fn register_decision(self, outcome: CallOutcome<AuthOnRegisterResponse>) -> bool {
        match outcome {
            CallOutcome::Answered(response) => response.allow,
            _ => self.fail_open,
        }
    }

    /// Whether a declaration may pass and under which key, given how the call ended.
    pub open spec fn subscribe_decision(
        self,
        outcome: CallOutcome<AuthOnSubscribeResponse>,
    ) -> (bool, Option<Seq<char>>) {
        match outcome {
            CallOutcome::Answered(response) => (
                response.allow,
                text_of(response.rewritten_key_expr),
            ),
            _ => (self.fail_open, None),
        }
    }

    /// Whether a message may pass and under which key, given how the call ended.
    pub open spec fn publish_decision(
        self,
        outcome: CallOutcome<AuthOnPublishResponse>,
    ) -> (bool, Option<Seq<char>>) {
        match outcome {
            CallOutcome::Answered(response) => (
                response.allow,
                text_of(response.rewritten_key_expr),
            ),
            _ => (self.fail_open, None),
        }
    }

    /// The answer of a call; nothing where it ended without one, whatever the reason.
    pub fn call_hook<R>(&self, outcome: CallOutcome<R>) -> (answer: Result<R, ()>)
        ensures
            outcome matches CallOutcome::Answered(response) ==> answer == Ok::<R, ()>(response),
            !(outcome is Answered) ==> answer is Err,
    {
        match outcome {
            CallOutcome::Answered(response) => Ok(response),
            CallOutcome::Refused | CallOutcome::TimedOut | CallOutcome::Panicked => Err(()),
        }
    }

    /// Whether a new transport may be opened: `false` denies it.
    pub fn auth_on_register(&self, outcome: CallOutcome<AuthOnRegisterResponse>) -> (allow: bool)
        ensures
            allow == self.register_decision(outcome),
            outcome matches CallOutcome::Answered(response) ==> allow == response.allow,
            !(outcome is Answered) ==> allow == self.fail_open,
    {
        match self.call_hook(outcome) {
            Ok(response) => response.allow,
            Err(()) => self.fail_open,
        }
    }

    /// Whether a declaration may pass, and the key that replaces its own.
    pub fn auth_on_subscribe(&self, outcome: CallOutcome<AuthOnSubscribeResponse>) -> (decision: (
        bool,
        Option<String>,
    ))
        ensures
            (decision.0, text_of(decision.1)) == self.subscribe_decision(outcome),
            outcome matches CallOutcome::Answered(response) ==> decision.0 == response.allow
                && decision.1 == response.rewritten_key_expr,
            !(outcome is Answered) ==> decision.0 == self.fail_open && decision.1 is None,
    {
        match self.call_hook(outcome) {
            Ok(response) => (response.allow, response.rewritten_key_expr),
            Err(()) => (self.fail_open, None),
        }
    }

    /// Whether a publication, deletion, query or reply may pass, and the key that replaces its
    /// own.
    pub fn auth_on_publish(&self, outcome: CallOutcome<AuthOnPublishResponse>) -> (decision: (
        bool,
        Option<String>,
    ))
        ensures
            (decision.0, text_of(decision.1)) == self.publish_decision(outcome),
            outcome matches CallOutcome::Answered(response) ==> decision.0 == response.allow
                && decision.1 == response.rewritten_key_expr,
            !(outcome is Answered) ==> decision.0 == self.fail_open && decision.1 is None,
    {
        match self.call_hook(outcome) {
            Ok(response) => (response.allow, response.rewritten_key_expr),
            Err(()) => (self.fail_open, None),
        }
    }

    /// Whether any byte of a payload is shown to the hook.
    pub fn captures_payload(&self) -> (captures: bool)
        ensures
            captures <==> self.max_payload_bytes > 0,
            !captures ==> forall|payload: Seq<u8>|
                captured(payload, self.max_payload_bytes) == Seq::<u8>::empty(),
    {
        assert(self.max_payload_bytes == 0 ==> forall|payload: Seq<u8>|
            captured(payload, self.max_payload_bytes) =~= Seq::<u8>::empty());
        self.max_payload_bytes != 0
    }

    /// The part of `payload` that is shown to the hook.
    pub fn capture_payload(&self, payload: &[u8]) -> (shown: Vec<u8>)
        ensures
            shown@ == captured(payload@, self.max_payload_bytes),
            shown@.is_prefix_of(payload@),
            payload@.len() <= self.max_payload_bytes ==> shown@.len() == payload@.len(),
            payload@.len() > self.max_payload_bytes ==> shown@.len() == self.max_payload_bytes,
    {
        if self.max_payload_bytes == 0 {
            assert(captured(payload@, 0) =~= Seq::<u8>::empty());
            return Vec::new();
        }
        if payload.len() <= self.max_payload_bytes {
            vstd::slice::slice_to_vec(payload)
        } else {
            vstd::slice::slice_to_vec(
                vstd::slice::slice_subrange(payload, 0, self.max_payload_bytes),
            )
        }
    }
}

} // verus!
