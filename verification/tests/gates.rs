//! Messages on their way in and out.

use grpc_hook::client::{AuthOnPublishRequest, AuthOnSubscribeRequest, HookClient};
use grpc_hook::interceptor::{
    GrpcHookEgressInterceptor, GrpcHookInterceptor, PeerMeta, Question,
};
use grpc_hook::message::{
    format_congestion_control, format_priority, format_query_target, CongestionControl, Mapping,
    NetworkBody, Priority, QoS, QueryTarget, WireExpr,
};
use grpc_hook::rewrite::ReverseRewriteTable;

const QOS: QoS =
    QoS { priority: Priority::RealTime, congestion_control: CongestionControl::BlockFirst };

fn gate() -> GrpcHookInterceptor {
    GrpcHookInterceptor {
        hook: HookClient { timeout_ms: 500, fail_open: false, max_payload_bytes: 4 },
        meta: PeerMeta {
            peer_id: "p1".to_owned(),
            username: "alice".to_owned(),
            cert_cn: "cn".to_owned(),
            link_protocol: "tls".to_owned(),
            interface: "eth0".to_owned(),
        },
    }
}

fn wire(suffix: &str) -> WireExpr {
    WireExpr { scope: 3, suffix: suffix.to_owned(), mapping: Mapping::Receiver }
}

fn whole(key: &str) -> WireExpr {
    WireExpr { scope: 0, suffix: key.to_owned(), mapping: Mapping::Sender }
}

fn data_with(wire_expr: fn() -> WireExpr) -> Vec<NetworkBody<'static>> {
    vec![
        NetworkBody::Put { wire_expr: wire_expr(), qos: QOS, payload: b"payload" },
        NetworkBody::Del { wire_expr: wire_expr(), qos: QOS },
        NetworkBody::Query {
            wire_expr: wire_expr(),
            qos: QOS,
            target: QueryTarget::All,
            parameters: "x=1".to_owned(),
        },
        NetworkBody::Response { wire_expr: wire_expr(), qos: QOS },
    ]
}

fn declarations_with(wire_expr: fn() -> WireExpr) -> Vec<NetworkBody<'static>> {
    vec![
        NetworkBody::DeclareSubscriber { wire_expr: wire_expr() },
        NetworkBody::DeclareQueryable { wire_expr: wire_expr(), complete: true },
    ]
}

fn gated_with(wire_expr: fn() -> WireExpr) -> Vec<NetworkBody<'static>> {
    let mut gated = data_with(wire_expr);
    gated.extend(declarations_with(wire_expr));
    gated
}

fn publish(action: &str, payload: &[u8], parameters: &str, target: &str) -> Question {
    Question::Publish(AuthOnPublishRequest {
        peer_id: "p1".to_owned(),
        username: "alice".to_owned(),
        key_expr: "a/b".to_owned(),
        action: action.to_owned(),
        cert_cn: "cn".to_owned(),
        link_protocol: "tls".to_owned(),
        interface: "eth0".to_owned(),
        payload: payload.to_vec(),
        congestion_control: "block_first".to_owned(),
        priority: "real_time".to_owned(),
        query_parameters: parameters.to_owned(),
        query_target: target.to_owned(),
    })
}

fn declare(kind: &str, history: bool) -> Question {
    Question::Subscribe(AuthOnSubscribeRequest {
        peer_id: "p1".to_owned(),
        username: "alice".to_owned(),
        key_expr: "a/b".to_owned(),
        kind: kind.to_owned(),
        cert_cn: "cn".to_owned(),
        link_protocol: "tls".to_owned(),
        interface: "eth0".to_owned(),
        reliability: "reliable".to_owned(),
        history,
    })
}

#[test]
fn labels() {
    assert_eq!(format_priority(Priority::Control), "control");
    assert_eq!(format_priority(Priority::RealTime), "real_time");
    assert_eq!(format_priority(Priority::InteractiveHigh), "interactive_high");
    assert_eq!(format_priority(Priority::InteractiveLow), "interactive_low");
    assert_eq!(format_priority(Priority::DataHigh), "data_high");
    assert_eq!(format_priority(Priority::Data), "data");
    assert_eq!(format_priority(Priority::DataLow), "data_low");
    assert_eq!(format_priority(Priority::Background), "background");
    assert_eq!(format_congestion_control(CongestionControl::Block), "block");
    assert_eq!(format_congestion_control(CongestionControl::Drop), "drop");
    assert_eq!(format_congestion_control(CongestionControl::BlockFirst), "block_first");
    assert_eq!(format_query_target(QueryTarget::BestMatching), "best_matching");
    assert_eq!(format_query_target(QueryTarget::All), "all");
    assert_eq!(format_query_target(QueryTarget::AllComplete), "all_complete");
}

#[test]
fn each_message_has_its_question() {
    let questions: Vec<Question> = gated_with(|| wire("x"))
        .iter()
        .map(|msg| gate().consult(Some("a/b"), msg))
        .collect();
    assert_eq!(
        questions,
        vec![
            publish("put", b"payl", "", ""),
            publish("delete", b"", "", ""),
            publish("query", b"", "x=1", "all"),
            publish("reply", b"", "", ""),
            declare("subscriber", false),
            declare("queryable", true),
        ]
    );
    assert_eq!(
        gate().consult(
            Some("a/b"),
            &NetworkBody::DeclareQueryable { wire_expr: wire("x"), complete: false }
        ),
        declare("queryable", false)
    );
}

#[test]
fn message_without_a_known_key_is_asked_about_under_the_empty_key() {
    match gate().consult(None, &NetworkBody::DeclareSubscriber { wire_expr: wire("x") }) {
        Question::Subscribe(request) => assert_eq!(request.key_expr, ""),
        other => panic!("{:?}", other),
    }
}

#[test]
fn administration_passes_unasked() {
    let mut table = ReverseRewriteTable::default();
    table.insert("@/x", "y");
    for mut msg in gated_with(|| wire("x")) {
        assert_eq!(gate().consult(Some("@/x"), &msg), Question::Pass);
        let key = Some("t/x".to_owned());
        assert!(gate().intercept(Some("@/x"), &mut msg, &mut table, false, key));
        assert!(GrpcHookEgressInterceptor::intercept(Some("@/x"), &mut msg, Some(&table)));
        assert!(gated_with(|| wire("x")).contains(&msg));
    }
    assert_eq!(table.reverse("t/x"), None);
}

#[test]
fn other_messages_pass_unasked() {
    let mut table = ReverseRewriteTable::default();
    let mut msg = NetworkBody::Other;
    assert_eq!(gate().consult(Some("a/b"), &msg), Question::Pass);
    assert!(gate().intercept(Some("a/b"), &mut msg, &mut table, false, Some("c".to_owned())));
    assert_eq!(msg, NetworkBody::Other);
    assert_eq!(table.reverse("c"), None);
}

#[test]
fn denial_leaves_everything_as_it_is() {
    let mut table = ReverseRewriteTable::default();
    for (i, mut msg) in gated_with(|| wire("x")).into_iter().enumerate() {
        let key = Some("t/a/b".to_owned());
        assert!(!gate().intercept(Some("a/b"), &mut msg, &mut table, false, key));
        assert_eq!(msg, gated_with(|| wire("x")).remove(i));
    }
    assert_eq!(table.reverse("t/a/b"), None);
}

#[test]
fn leave_without_a_key_changes_nothing() {
    let mut table = ReverseRewriteTable::default();
    for (i, mut msg) in gated_with(|| wire("x")).into_iter().enumerate() {
        assert!(gate().intercept(Some("a/b"), &mut msg, &mut table, true, None));
        assert_eq!(msg, gated_with(|| wire("x")).remove(i));
    }
    assert_eq!(table.reverse("a/b"), None);
}

#[test]
fn leave_with_a_key_rewrites_only_the_key() {
    let mut table = ReverseRewriteTable::default();
    for (i, mut msg) in gated_with(|| wire("x")).into_iter().enumerate() {
        let key = Some("t/a/b".to_owned());
        assert!(gate().intercept(Some("a/b"), &mut msg, &mut table, true, key));
        assert_eq!(msg, gated_with(|| whole("t/a/b")).remove(i));
    }
}

#[test]
fn only_declarations_are_noted_in_the_table() {
    for mut msg in data_with(|| wire("x")) {
        let mut table = ReverseRewriteTable::default();
        let key = Some("t/a/b".to_owned());
        assert!(gate().intercept(Some("a/b"), &mut msg, &mut table, true, key));
        assert_eq!(table.reverse("t/a/b"), None);
    }
    for mut msg in declarations_with(|| wire("x")) {
        let mut table = ReverseRewriteTable::default();
        let key = Some("t/a/b".to_owned());
        assert!(gate().intercept(Some("a/b"), &mut msg, &mut table, true, key));
        assert_eq!(table.reverse("t/a/b"), Some("a/b".to_owned()));
    }
}

#[test]
fn key_that_is_not_taken_is_noted_as_it_came() {
    let mut table = ReverseRewriteTable::default();
    let mut msg = NetworkBody::DeclareSubscriber { wire_expr: wire("x") };
    assert!(gate().intercept(Some("a"), &mut msg, &mut table, true, Some("t//a".to_owned())));
    assert_eq!(msg, NetworkBody::DeclareSubscriber { wire_expr: wire("x") });
    assert_eq!(table.reverse("t//a"), Some("a".to_owned()));
    assert!(gate().intercept(Some("a"), &mut msg, &mut table, true, Some(" u/a ".to_owned())));
    assert_eq!(msg, NetworkBody::DeclareSubscriber { wire_expr: whole("u/a") });
    assert_eq!(table.reverse(" u/a "), Some("a".to_owned()));
    assert_eq!(table.reverse("u/a"), None);
}

#[test]
fn declared_keys_come_back() {
    let mut table = ReverseRewriteTable::default();
    let mut msg = NetworkBody::DeclareSubscriber { wire_expr: wire("x") };
    let key = Some("tenant_42/provision/**".to_owned());
    assert!(gate().intercept(Some("provision/**"), &mut msg, &mut table, true, key));
    assert_eq!(msg, NetworkBody::DeclareSubscriber { wire_expr: whole("tenant_42/provision/**") });
    for (i, mut msg) in data_with(|| wire("x")).into_iter().enumerate() {
        let key = Some("tenant_42/provision/a/b");
        assert!(GrpcHookEgressInterceptor::intercept(key, &mut msg, Some(&table)));
        assert_eq!(msg, data_with(|| whole("provision/a/b")).remove(i));
    }
}

#[test]
fn known_key_is_not_taken_over() {
    let mut table = ReverseRewriteTable::default();
    for key in ["a", "b", "c/*"] {
        let mut msg = NetworkBody::DeclareSubscriber { wire_expr: wire("x") };
        assert!(gate().intercept(Some(key), &mut msg, &mut table, true, Some("t".to_owned())));
        assert_eq!(msg, NetworkBody::DeclareSubscriber { wire_expr: whole("t") });
        assert_eq!(table.reverse("t"), Some("a".to_owned()));
    }
}

#[test]
fn outgoing_message_without_a_known_key_goes_by_the_text_on_the_wire() {
    let mut table = ReverseRewriteTable::default();
    table.insert("t/a", "a");
    for (i, mut msg) in data_with(|| wire("t/a")).into_iter().enumerate() {
        assert!(GrpcHookEgressInterceptor::intercept(None, &mut msg, Some(&table)));
        assert_eq!(msg, data_with(|| whole("a")).remove(i));
    }
}

#[test]
fn outgoing_message_that_the_table_does_not_know_stays() {
    let mut table = ReverseRewriteTable::default();
    table.insert("t/a", "a");
    for (i, mut msg) in data_with(|| wire("x")).into_iter().enumerate() {
        assert!(GrpcHookEgressInterceptor::intercept(Some("t/b"), &mut msg, Some(&table)));
        assert_eq!(msg, data_with(|| wire("x")).remove(i));
        assert!(GrpcHookEgressInterceptor::intercept(Some("t/a"), &mut msg, None));
        assert_eq!(msg, data_with(|| wire("x")).remove(i));
    }
}

#[test]
fn outgoing_message_under_the_empty_key_stays() {
    let mut table = ReverseRewriteTable::default();
    table.insert("*", "a/*");
    assert_eq!(table.reverse(""), Some("a/".to_owned()));
    for (i, mut msg) in data_with(|| wire("")).into_iter().enumerate() {
        assert!(GrpcHookEgressInterceptor::intercept(None, &mut msg, Some(&table)));
        assert!(GrpcHookEgressInterceptor::intercept(Some(""), &mut msg, Some(&table)));
        assert_eq!(msg, data_with(|| wire("")).remove(i));
    }
}

#[test]
fn outgoing_declarations_stay() {
    let mut table = ReverseRewriteTable::default();
    table.insert("t/a", "a");
    for (i, mut msg) in declarations_with(|| wire("t/a")).into_iter().enumerate() {
        assert!(GrpcHookEgressInterceptor::intercept(Some("t/a"), &mut msg, Some(&table)));
        assert!(GrpcHookEgressInterceptor::intercept(None, &mut msg, Some(&table)));
        assert_eq!(msg, declarations_with(|| wire("t/a")).remove(i));
    }
    let mut msg = NetworkBody::Other;
    assert!(GrpcHookEgressInterceptor::intercept(Some("t/a"), &mut msg, Some(&table)));
    assert_eq!(msg, NetworkBody::Other);
}

#[test]
fn original_that_is_no_key_expression_is_not_put_back() {
    let mut table = ReverseRewriteTable::default();
    table.insert("t/all", "a/*");
    let mut msg = NetworkBody::Del { wire_expr: wire("x"), qos: QOS };
    assert!(GrpcHookEgressInterceptor::intercept(Some("t/all"), &mut msg, Some(&table)));
    assert_eq!(msg, NetworkBody::Del { wire_expr: wire("x"), qos: QOS });
}
