//! What answers, and their absence, decide.

use grpc_hook::client::{
    wait_strategy, AuthOnPublishResponse, AuthOnRegisterResponse, AuthOnSubscribeResponse,
    CallOutcome, HookClient, RuntimeFlavor, WaitStrategy,
};

fn hook(fail_open: bool, max_payload_bytes: usize) -> HookClient {
    HookClient { timeout_ms: 500, fail_open, max_payload_bytes }
}

fn silences<R>() -> Vec<CallOutcome<R>> {
    vec![CallOutcome::Refused, CallOutcome::TimedOut, CallOutcome::Panicked]
}

#[test]
fn answers_are_passed_on() {
    assert_eq!(hook(false, 0).call_hook(CallOutcome::Answered(5u8)), Ok(5));
    for silence in silences::<u8>() {
        assert_eq!(hook(true, 0).call_hook(silence), Err(()));
    }
}

#[test]
fn an_answer_decides_whatever_fail_open_says() {
    for fail_open in [false, true] {
        for allow in [false, true] {
            let hook = hook(fail_open, 0);
            assert_eq!(
                hook.auth_on_register(CallOutcome::Answered(AuthOnRegisterResponse { allow })),
                allow
            );
            assert_eq!(
                hook.auth_on_subscribe(CallOutcome::Answered(AuthOnSubscribeResponse {
                    allow,
                    rewritten_key_expr: Some("t/a".to_owned()),
                })),
                (allow, Some("t/a".to_owned()))
            );
            assert_eq!(
                hook.auth_on_publish(CallOutcome::Answered(AuthOnPublishResponse {
                    allow,
                    rewritten_key_expr: None,
                })),
                (allow, None)
            );
            assert_eq!(
                hook.auth_on_publish(CallOutcome::Answered(AuthOnPublishResponse {
                    allow,
                    rewritten_key_expr: Some("t/b".to_owned()),
                })),
                (allow, Some("t/b".to_owned()))
            );
        }
    }
}

#[test]
fn without_an_answer_fail_open_decides() {
    for fail_open in [false, true] {
        let hook = hook(fail_open, 0);
        for silence in silences() {
            assert_eq!(hook.auth_on_register(silence), fail_open);
        }
        for silence in silences() {
            assert_eq!(hook.auth_on_subscribe(silence), (fail_open, None));
        }
        for silence in silences() {
            assert_eq!(hook.auth_on_publish(silence), (fail_open, None));
        }
    }
}

#[test]
fn waiting_never_holds_up_a_runtime_with_one_thread() {
    assert_eq!(wait_strategy(RuntimeFlavor::CurrentThread), WaitStrategy::ScopedThread);
    assert_eq!(wait_strategy(RuntimeFlavor::MultiThread), WaitStrategy::BlockInPlace);
}

#[test]
fn payload_is_cut_at_the_limit() {
    assert_eq!(hook(false, 10).capture_payload(b"0123456789abcdef"), b"0123456789".to_vec());
    assert_eq!(hook(false, 16).capture_payload(b"0123456789abcdef"), b"0123456789abcdef".to_vec());
    assert_eq!(hook(false, 17).capture_payload(b"0123456789abcdef"), b"0123456789abcdef".to_vec());
    assert_eq!(hook(false, usize::MAX).capture_payload(b"ab"), b"ab".to_vec());
    assert_eq!(hook(false, 1).capture_payload(b""), Vec::<u8>::new());
}

#[test]
fn limit_of_zero_shows_nothing() {
    assert!(!hook(false, 0).captures_payload());
    assert!(hook(false, 1).captures_payload());
    assert_eq!(hook(false, 0).capture_payload(b"some payload data"), Vec::<u8>::new());
}
