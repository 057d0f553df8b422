//! Peers behind the hook, with a hook server in memory.

use grpc_hook::client::{
    AuthOnPublishRequest, AuthOnPublishResponse, AuthOnRegisterRequest, AuthOnRegisterResponse,
    AuthOnSubscribeRequest, AuthOnSubscribeResponse, CallOutcome,
};
use grpc_hook::config::{grpc_hook_interceptor_factories, GrpcHookConfig, DEFAULT_MAX_PAYLOAD_BYTES};
use grpc_hook::error::HookError;
use grpc_hook::factory::{
    AuthIds, Gates, GrpcHookInterceptorFactory, Link, LinkAuthId, Registration, TransportUnicast,
};
use grpc_hook::interceptor::{GrpcHookEgressInterceptor, Question};
use grpc_hook::message::{CongestionControl, Mapping, NetworkBody, Priority, QoS, WireExpr};

#[derive(Default)]
struct MockHookService {
    registers: Vec<AuthOnRegisterRequest>,
    subscribes: Vec<AuthOnSubscribeRequest>,
    publishes: Vec<AuthOnPublishRequest>,
    allow_register: bool,
    allowed_sub_prefixes: Vec<String>,
    allowed_pub_prefixes: Vec<String>,
    rewrite_prefix: Option<String>,
}

impl MockHookService {
    fn rewrite(&self, key_expr: &str) -> Option<String> {
        let prefix = self.rewrite_prefix.as_ref()?;
        if key_expr.starts_with(prefix.as_str()) {
            None
        } else {
            Some(format!("{}/{}", prefix, key_expr))
        }
    }

    fn auth_on_register(
        &mut self,
        request: AuthOnRegisterRequest,
    ) -> CallOutcome<AuthOnRegisterResponse> {
        let allow = self.allow_register;
        self.registers.push(request);
        CallOutcome::Answered(AuthOnRegisterResponse { allow })
    }

    fn auth_on_subscribe(
        &mut self,
        request: AuthOnSubscribeRequest,
    ) -> CallOutcome<AuthOnSubscribeResponse> {
        let allow = self
            .allowed_sub_prefixes
            .iter()
            .any(|prefix| request.key_expr.starts_with(prefix.as_str()));
        let rewritten_key_expr = self.rewrite(&request.key_expr);
        self.subscribes.push(request);
        CallOutcome::Answered(AuthOnSubscribeResponse { allow, rewritten_key_expr })
    }

    fn auth_on_publish(
        &mut self,
        request: AuthOnPublishRequest,
    ) -> CallOutcome<AuthOnPublishResponse> {
        let allow = self
            .allowed_pub_prefixes
            .iter()
            .any(|prefix| request.key_expr.starts_with(prefix.as_str()));
        let rewritten_key_expr = self.rewrite(&request.key_expr);
        self.publishes.push(request);
        CallOutcome::Answered(AuthOnPublishResponse { allow, rewritten_key_expr })
    }
}

fn config(max_payload_bytes: usize) -> GrpcHookConfig {
    GrpcHookConfig {
        enabled: true,
        endpoint: "http://127.0.0.1:50051".to_owned(),
        timeout_ms: 2000,
        fail_open: false,
        max_payload_bytes,
    }
}

fn factory(max_payload_bytes: usize) -> GrpcHookInterceptorFactory {
    let mut factories = grpc_hook_interceptor_factories(&config(max_payload_bytes)).unwrap();
    assert_eq!(factories.len(), 1);
    factories.remove(0)
}

fn transport(zid: &str) -> TransportUnicast {
    TransportUnicast {
        zid: Some(zid.to_owned()),
        auth_ids: Ok(AuthIds {
            username: None,
            link_auth_ids: vec![LinkAuthId::Tcp],
            usrpwd_hmac: None,
            usrpwd_nonce: None,
        }),
        links: Some(vec![Link { interfaces: vec!["lo".to_owned()] }]),
    }
}

fn open(
    factory: &GrpcHookInterceptorFactory,
    mock: &mut MockHookService,
    transport: &TransportUnicast,
) -> Result<Gates, HookError> {
    match factory.register(transport)? {
        Registration::Ask(request) => {
            let outcome = mock.auth_on_register(AuthOnRegisterRequest {
                peer_id: request.peer_id.clone(),
                cert_cn: request.cert_cn.clone(),
                username: request.username.clone(),
                link_protocol: request.link_protocol.clone(),
                interface: request.interface.clone(),
                hmac: request.hmac.clone(),
                nonce: request.nonce,
            });
            factory.new_transport_unicast(&request, outcome)
        }
        Registration::Ungated => panic!("the peer told who it is"),
    }
}

fn wire(key: &str) -> WireExpr {
    WireExpr { scope: 0, suffix: key.to_owned(), mapping: Mapping::Receiver }
}

fn put<'a>(key: &str, payload: &'a [u8]) -> NetworkBody<'a> {
    NetworkBody::Put {
        wire_expr: wire(key),
        qos: QoS { priority: Priority::Data, congestion_control: CongestionControl::Drop },
        payload,
    }
}

fn subscribe(key: &str) -> NetworkBody<'static> {
    NetworkBody::DeclareSubscriber { wire_expr: wire(key) }
}

fn suffix_of<'b>(msg: &'b NetworkBody) -> &'b str {
    match msg {
        NetworkBody::Put { wire_expr, .. } => &wire_expr.suffix,
        NetworkBody::DeclareSubscriber { wire_expr } => &wire_expr.suffix,
        _ => panic!("neither put nor subscriber"),
    }
}

/// Sends `msg` through the ingress gate of a peer.
fn send(gates: &mut Gates, mock: &mut MockHookService, key: &str, msg: &mut NetworkBody) -> bool {
    let (allow, new_key) = match gates.ingress.consult(Some(key), msg) {
        Question::Pass => (true, None),
        Question::Publish(request) => {
            gates.ingress.hook.auth_on_publish(mock.auth_on_publish(request))
        }
        Question::Subscribe(request) => {
            gates.ingress.hook.auth_on_subscribe(mock.auth_on_subscribe(request))
        }
    };
    gates.ingress.intercept(Some(key), msg, &mut gates.reverse_table, allow, new_key)
}

#[test]
fn test_grpc_hook_auth_on_register_allow() {
    let mut mock = MockHookService { allow_register: true, ..Default::default() };
    let gates = open(&factory(DEFAULT_MAX_PAYLOAD_BYTES), &mut mock, &transport("c1"));
    assert!(gates.is_ok());
    assert!(!mock.registers.is_empty(), "auth_on_register must be called on connection");
}

#[test]
fn test_grpc_hook_auth_on_register_deny() {
    let mut mock = MockHookService { allow_register: false, ..Default::default() };
    let client_res = open(&factory(DEFAULT_MAX_PAYLOAD_BYTES), &mut mock, &transport("c1"));
    assert!(client_res.is_err(), "Denied client must fail initial handshake");
    let error = client_res.unwrap_err();
    assert_eq!(error, HookError::RegisterDenied { peer_id: "c1".to_owned() });
    assert_eq!(error.message(), "grpc_hook: auth_on_register DENIED for peer c1");
    assert_eq!(
        mock.registers.len(),
        1,
        "auth_on_register must be called once without reconnect spam"
    );
}

#[test]
fn test_grpc_hook_auth_on_publish_and_subscribe() {
    let mut mock = MockHookService {
        allow_register: true,
        allowed_sub_prefixes: vec!["test/allowed".to_string()],
        allowed_pub_prefixes: vec!["test/allowed".to_string()],
        ..Default::default()
    };
    let factory = factory(DEFAULT_MAX_PAYLOAD_BYTES);
    let mut sub_session = open(&factory, &mut mock, &transport("c1")).unwrap();
    let mut pub_session = open(&factory, &mut mock, &transport("c2")).unwrap();

    let mut declared = subscribe("test/allowed/msg");
    assert!(send(&mut sub_session, &mut mock, "test/allowed/msg", &mut declared));

    let mut allowed = put("test/allowed/msg", b"hello allowed");
    let received = send(&mut pub_session, &mut mock, "test/allowed/msg", &mut allowed);
    assert!(received, "Allowed subscriber should receive allowed published message");
    assert_eq!(allowed, put("test/allowed/msg", b"hello allowed"));

    let sub = mock
        .subscribes
        .iter()
        .find(|s| s.key_expr == "test/allowed/msg")
        .expect("auth_on_subscribe must be called for test/allowed/msg");
    assert_eq!(sub.reliability, "reliable");
    assert!(!sub.history);

    let pub_req = mock
        .publishes
        .iter()
        .find(|p| p.key_expr == "test/allowed/msg" && p.action == "put")
        .expect("auth_on_publish must be called for test/allowed/msg");
    assert_eq!(pub_req.priority, "data");
    assert_eq!(pub_req.congestion_control, "drop");

    let mut denied = put("test/denied/msg", b"hello denied");
    assert!(!send(&mut pub_session, &mut mock, "test/denied/msg", &mut denied));
    assert!(
        mock.publishes.iter().any(|p| p.key_expr == "test/denied/msg"),
        "auth_on_publish must be called for test/denied/msg"
    );
}

#[test]
fn test_grpc_hook_auth_on_register_usrpwd_credentials() {
    let mut mock = MockHookService { allow_register: true, ..Default::default() };
    let mut peer = transport("c1");
    peer.auth_ids = Ok(AuthIds {
        username: Some("alice".to_owned()),
        link_auth_ids: vec![LinkAuthId::Tcp],
        usrpwd_hmac: Some(b"secret".to_vec()),
        usrpwd_nonce: Some(300),
    });
    open(&factory(DEFAULT_MAX_PAYLOAD_BYTES), &mut mock, &peer).unwrap();
    assert!(!mock.registers.is_empty(), "auth_on_register must be called");
    let reg = mock.registers.iter().find(|r| r.username == "alice");
    assert!(reg.is_some(), "auth_on_register must receive username 'alice'");
    let reg = reg.unwrap();
    assert!(!reg.hmac.is_empty(), "auth_on_register must receive non-empty HMAC");
    assert_ne!(reg.nonce, 0, "auth_on_register must receive non-zero nonce");
}

#[test]
fn test_grpc_hook_rewrite_key_expr() {
    let mut mock = MockHookService {
        allow_register: true,
        rewrite_prefix: Some("tenant_42".to_owned()),
        allowed_sub_prefixes: vec!["tenant_42/".to_owned()],
        allowed_pub_prefixes: vec!["raw/".to_owned()],
        ..Default::default()
    };
    let factory = factory(DEFAULT_MAX_PAYLOAD_BYTES);
    let mut sub_session = open(&factory, &mut mock, &transport("c1")).unwrap();
    let mut pub_session = open(&factory, &mut mock, &transport("c2")).unwrap();

    let mut declared = subscribe("tenant_42/raw/data");
    assert!(send(&mut sub_session, &mut mock, "tenant_42/raw/data", &mut declared));
    assert_eq!(suffix_of(&declared), "tenant_42/raw/data");

    let mut sample = put("raw/data", b"hello tenant");
    assert!(
        send(&mut pub_session, &mut mock, "raw/data", &mut sample),
        "Subscriber should receive message on rewritten topic"
    );
    match sample {
        NetworkBody::Put { wire_expr, payload, .. } => {
            assert_eq!(
                wire_expr,
                WireExpr {
                    scope: 0,
                    suffix: "tenant_42/raw/data".to_owned(),
                    mapping: Mapping::Sender,
                }
            );
            assert_eq!(payload, b"hello tenant");
        }
        _ => panic!("still a put"),
    }
}

#[test]
fn test_grpc_hook_max_payload_bytes() {
    let mut mock = MockHookService {
        allow_register: true,
        allowed_pub_prefixes: vec!["test/payload".to_owned()],
        ..Default::default()
    };
    let mut pub_session = open(&factory(10), &mut mock, &transport("c1")).unwrap();
    let mut sample = put("test/payload/truncated", b"0123456789abcdef");
    assert!(send(&mut pub_session, &mut mock, "test/payload/truncated", &mut sample));
    let pub_req = mock
        .publishes
        .iter()
        .find(|p| p.key_expr == "test/payload/truncated")
        .expect("auth_on_publish must be called for test/payload/truncated");
    assert_eq!(pub_req.payload, b"0123456789".to_vec());
}

#[test]
fn test_grpc_hook_max_payload_bytes_zero() {
    let mut mock = MockHookService {
        allow_register: true,
        allowed_pub_prefixes: vec!["test/payload".to_owned()],
        ..Default::default()
    };
    let mut pub_session = open(&factory(0), &mut mock, &transport("c1")).unwrap();
    let mut sample = put("test/payload/zero", b"some payload data");
    assert!(send(&mut pub_session, &mut mock, "test/payload/zero", &mut sample));
    let pub_req = mock
        .publishes
        .iter()
        .find(|p| p.key_expr == "test/payload/zero")
        .expect("auth_on_publish must be called for test/payload/zero");
    assert!(pub_req.payload.is_empty(), "payload must be empty when max_payload_bytes is 0");
}

#[test]
fn test_grpc_hook_egress_reverse_rewrite_on_subscribe() {
    let mut mock = MockHookService {
        allow_register: true,
        rewrite_prefix: Some("tenant_42".to_owned()),
        allowed_sub_prefixes: vec!["provision/".to_owned()],
        allowed_pub_prefixes: vec!["tenant_42/".to_owned()],
        ..Default::default()
    };
    let factory = factory(DEFAULT_MAX_PAYLOAD_BYTES);
    let mut dev_session = open(&factory, &mut mock, &transport("c1")).unwrap();
    let mut backend_session = open(&factory, &mut mock, &transport("c2")).unwrap();

    let mut declared = subscribe("provision/response");
    assert!(send(&mut dev_session, &mut mock, "provision/response", &mut declared));
    assert_eq!(suffix_of(&declared), "tenant_42/provision/response");

    let mut sample = put("tenant_42/provision/response", b"creds_for_dev");
    assert!(send(&mut backend_session, &mut mock, "tenant_42/provision/response", &mut sample));
    assert_eq!(suffix_of(&sample), "tenant_42/provision/response");

    let received = GrpcHookEgressInterceptor::intercept(
        Some("tenant_42/provision/response"),
        &mut sample,
        Some(&dev_session.reverse_table),
    );
    assert!(
        received,
        "Device subscriber must receive the message on its declared topic 'provision/response'"
    );
    assert_eq!(suffix_of(&sample), "provision/response");
    match sample {
        NetworkBody::Put { payload, .. } => assert_eq!(payload, b"creds_for_dev"),
        _ => panic!("still a put"),
    }
}
