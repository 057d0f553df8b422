//! Setting the hook up, and peers that connect.

use grpc_hook::client::{AuthOnRegisterRequest, AuthOnRegisterResponse, CallOutcome, HookClient};
use grpc_hook::config::{
    factories_given, grpc_hook_interceptor_factories, GrpcHookConfig, DEFAULT_MAX_PAYLOAD_BYTES,
    DEFAULT_TIMEOUT_MS,
};
use grpc_hook::error::HookError;
use grpc_hook::factory::{
    describe_links, AuthIds, GrpcHookInterceptorFactory, Link, LinkAuthId, Registration,
    TransportUnicast,
};
use grpc_hook::interceptor::PeerMeta;

fn config(enabled: bool, endpoint: &str) -> GrpcHookConfig {
    GrpcHookConfig {
        enabled,
        endpoint: endpoint.to_owned(),
        timeout_ms: DEFAULT_TIMEOUT_MS,
        fail_open: true,
        max_payload_bytes: DEFAULT_MAX_PAYLOAD_BYTES,
    }
}

fn factory(fail_open: bool) -> GrpcHookInterceptorFactory {
    GrpcHookInterceptorFactory {
        hook: HookClient { timeout_ms: 500, fail_open, max_payload_bytes: 4 },
        endpoint: "http://127.0.0.1:50051".to_owned(),
    }
}

fn transport() -> TransportUnicast {
    TransportUnicast {
        zid: Some("a1b2".to_owned()),
        auth_ids: Ok(AuthIds {
            username: Some("alice".to_owned()),
            link_auth_ids: vec![LinkAuthId::Tls(Some("cn".to_owned())), LinkAuthId::Tcp],
            usrpwd_hmac: Some(vec![1, 2, 3]),
            usrpwd_nonce: Some(42),
        }),
        links: Some(vec![
            Link { interfaces: vec!["eth0".to_owned(), "lo".to_owned()] },
            Link { interfaces: vec!["wlan0".to_owned()] },
        ]),
    }
}

fn request() -> AuthOnRegisterRequest {
    AuthOnRegisterRequest {
        peer_id: "a1b2".to_owned(),
        cert_cn: "cn".to_owned(),
        username: "alice".to_owned(),
        link_protocol: "tcp".to_owned(),
        interface: "eth0".to_owned(),
        hmac: vec![1, 2, 3],
        nonce: 42,
    }
}

#[test]
fn defaults() {
    assert_eq!(DEFAULT_TIMEOUT_MS, 500);
    assert_eq!(DEFAULT_MAX_PAYLOAD_BYTES, 65536);
}

#[test]
fn disabled_hook_sets_nothing_up() {
    for endpoint in ["", "no address at all", "http://127.0.0.1:50051"] {
        assert_eq!(grpc_hook_interceptor_factories(&config(false, endpoint)), Ok(vec![]));
    }
    let cfg = config(false, "x");
    assert_eq!(factories_given(&cfg, Some("bad".to_owned())), Ok(vec![]));
}

#[test]
fn enabled_hook_needs_an_endpoint() {
    let error = grpc_hook_interceptor_factories(&config(true, "")).unwrap_err();
    assert_eq!(error, HookError::EndpointMissing);
    assert_eq!(error.message(), "grpc_hook is enabled but `endpoint` is not configured");
}

#[test]
fn endpoint_must_be_an_address() {
    let error = grpc_hook_interceptor_factories(&config(true, "no address at all")).unwrap_err();
    assert_eq!(
        error,
        HookError::InvalidEndpoint {
            endpoint: "no address at all".to_owned(),
            reason: "invalid uri character".to_owned(),
        }
    );
    assert_eq!(
        error.message(),
        "grpc_hook: invalid endpoint 'no address at all': invalid uri character"
    );
    assert_eq!(
        factories_given(&config(true, "x"), Some("bad".to_owned())),
        Err(HookError::InvalidEndpoint { endpoint: "x".to_owned(), reason: "bad".to_owned() })
    );
}

#[test]
fn enabled_hook_is_set_up_as_configured() {
    let factories =
        grpc_hook_interceptor_factories(&config(true, "http://127.0.0.1:50051")).unwrap();
    assert_eq!(
        factories,
        vec![GrpcHookInterceptorFactory {
            hook: HookClient { timeout_ms: 500, fail_open: true, max_payload_bytes: 65536 },
            endpoint: "http://127.0.0.1:50051".to_owned(),
        }]
    );
}

#[test]
fn each_kind_of_link_has_its_label() {
    let labelled = [
        (LinkAuthId::Tls(None), "tls"),
        (LinkAuthId::Quic(None), "quic"),
        (LinkAuthId::Tcp, "tcp"),
        (LinkAuthId::Udp, "udp"),
        (LinkAuthId::Serial, "serial"),
        (LinkAuthId::Unixpipe, "unixpipe"),
        (LinkAuthId::UnixsockStream, "unixsock_stream"),
        (LinkAuthId::Vsock, "vsock"),
        (LinkAuthId::Ws, "ws"),
    ];
    for (link, label) in labelled {
        assert_eq!(describe_links(&vec![link]), (String::new(), label.to_owned()));
    }
}

#[test]
fn last_link_counts() {
    let cn = |name: &str| Some(name.to_owned());
    let described = |cn: &str, protocol: &str| (cn.to_owned(), protocol.to_owned());
    assert_eq!(describe_links(&vec![]), described("", ""));
    assert_eq!(
        describe_links(&vec![LinkAuthId::Tls(cn("a")), LinkAuthId::Quic(cn("b"))]),
        described("b", "quic")
    );
    assert_eq!(
        describe_links(&vec![LinkAuthId::Quic(cn("b")), LinkAuthId::Udp]),
        described("b", "udp")
    );
    assert_eq!(
        describe_links(&vec![LinkAuthId::Tls(cn("a")), LinkAuthId::Tls(None)]),
        described("", "tls")
    );
}

#[test]
fn peer_is_asked_about_by_what_its_transport_tells() {
    assert_eq!(factory(false).register(&transport()), Ok(Registration::Ask(request())));
}

#[test]
fn what_a_transport_does_not_tell_is_empty() {
    let silent = |links: Option<Vec<Link>>| TransportUnicast {
        zid: None,
        auth_ids: Ok(AuthIds {
            username: None,
            link_auth_ids: vec![],
            usrpwd_hmac: None,
            usrpwd_nonce: None,
        }),
        links,
    };
    for links in [None, Some(vec![]), Some(vec![Link { interfaces: vec![] }])] {
        assert_eq!(
            factory(true).register(&silent(links)),
            Ok(Registration::Ask(AuthOnRegisterRequest {
                peer_id: String::new(),
                cert_cn: String::new(),
                username: String::new(),
                link_protocol: String::new(),
                interface: String::new(),
                hmac: vec![],
                nonce: 0,
            }))
        );
    }
}

#[test]
fn peer_that_cannot_be_identified_is_let_in_only_by_a_hook_that_fails_open() {
    let unknown = TransportUnicast { auth_ids: Err("closed".to_owned()), ..transport() };
    assert_eq!(factory(true).register(&unknown), Ok(Registration::Ungated));
    let error = factory(false).register(&unknown).unwrap_err();
    assert_eq!(
        error,
        HookError::AuthIdsUnavailable { peer_id: "a1b2".to_owned(), reason: "closed".to_owned() }
    );
    assert_eq!(error.message(), "grpc_hook: could not get auth IDs for a1b2: closed");
}

#[test]
fn allowed_peer_gets_gates() {
    let outcome = CallOutcome::Answered(AuthOnRegisterResponse { allow: true });
    let gates = factory(false).new_transport_unicast(&request(), outcome).unwrap();
    assert_eq!(gates.ingress.hook, factory(false).hook);
    assert_eq!(
        gates.ingress.meta,
        PeerMeta {
            peer_id: "a1b2".to_owned(),
            username: "alice".to_owned(),
            cert_cn: "cn".to_owned(),
            link_protocol: "tcp".to_owned(),
            interface: "eth0".to_owned(),
        }
    );
    assert_eq!(gates.reverse_table.reverse("a"), None);
}

#[test]
fn denied_peer_is_turned_away() {
    let outcome = CallOutcome::Answered(AuthOnRegisterResponse { allow: false });
    let error = factory(true).new_transport_unicast(&request(), outcome).unwrap_err();
    assert_eq!(error, HookError::RegisterDenied { peer_id: "a1b2".to_owned() });
    assert_eq!(error.message(), "grpc_hook: auth_on_register DENIED for peer a1b2");
}

#[test]
fn silence_about_a_peer_is_decided_by_fail_open() {
    assert!(factory(true).new_transport_unicast(&request(), CallOutcome::TimedOut).is_ok());
    assert!(factory(false).new_transport_unicast(&request(), CallOutcome::TimedOut).is_err());
}
