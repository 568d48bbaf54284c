use shuvgrok::failover::{
    models_url, plan_probe, probe_outcome, probing_enabled, qualifies_for_failover,
    threshold_reached, AuthScheme, Clock, Cooldown, EndpointErrorKind, EndpointHealth, FailoverEndpoint,
    FailoverPool, FailoverState, Moment, ProbeAuth, ProbeOutcome, ProbePlan, ProbeReply,
    ProbeRequest,
    MAX_COOLDOWN_SECS, MAX_READING_NANOS, NANOS_PER_SEC,
};

fn endpoint(base_url: &str, model: &str) -> FailoverEndpoint {
    FailoverEndpoint {
        base_url: base_url.into(),
        model: model.into(),
        api_key: None,
        auth_scheme: AuthScheme::Bearer,
        api_backend: String::new(),
        extra_headers: Vec::new(),
        query_params: Vec::new(),
    }
}

fn pool(n: usize) -> FailoverPool {
    FailoverPool {
        endpoints: (0..n)
            .map(|i| endpoint(&format!("https://alt{i}.example.com"), &format!("m{i}")))
            .collect(),
    }
}

fn secs(n: u64) -> u128 {
    n as u128 * NANOS_PER_SEC
}

fn cooling(since: u64, wait: u64) -> Option<Cooldown> {
    Some(Cooldown {
        until: at(since + wait),
        secs: wait,
    })
}

fn at(n: u64) -> Moment {
    Moment { nanos: secs(n) }
}

#[test]
fn empty_pool_has_no_candidates() {
    let state = FailoverState::new(&pool(0));
    assert_eq!(state.next_healthy(), None);
}

#[test]
fn rotation_starts_at_first_alternate_then_advances() {
    let mut state = FailoverState::new(&pool(3));
    assert_eq!(state.next_healthy(), Some(0), "start at first alternate");
    state.set_active(0);
    assert_eq!(state.next_healthy(), Some(1));
    state.set_active(1);
    assert_eq!(state.next_healthy(), Some(2));
    state.set_active(2);
    assert_eq!(state.next_healthy(), Some(0));
}

#[test]
fn single_endpoint_pool_wraps_back_to_itself_while_healthy() {
    let mut state = FailoverState::new(&pool(1));
    state.set_active(0);
    assert_eq!(state.next_healthy(), Some(0));
}

#[test]
fn cooldown_skips_failed_endpoints() {
    let mut state = FailoverState::new(&pool(2));
    state.set_active(0);
    state.mark_active_failed(false);
    assert_eq!(state.next_healthy(), Some(1));
    state.set_active(1);
    state.mark_active_failed(true);
    assert_eq!(state.next_healthy(), None, "all candidates cooling");
    assert!(state.any_in_cooldown());
}

#[test]
fn repeated_failure_doubles_cooldown_up_to_cap() {
    let clock = Clock::start();
    let mut health = EndpointHealth::default();
    let t0 = clock.now();
    health.record_failure(EndpointErrorKind::ServerOrTransport, t0);
    let first = health.cooldown_until.unwrap().duration_since(t0);
    assert_eq!(first, secs(30));

    let t1 = clock.now();
    health.record_failure(EndpointErrorKind::ServerOrTransport, t1);
    let second = health.cooldown_until.unwrap().duration_since(t1);
    assert_eq!(second, secs(60));

    for _ in 0..12 {
        health.record_failure(EndpointErrorKind::RateLimited, clock.now());
    }
    let capped = health.cooldown_until.unwrap().duration_since(clock.now());
    assert!(capped <= secs(MAX_COOLDOWN_SECS), "cooldown must cap at 10 min");
    assert_eq!(health.consecutive_failures, 14);
}

#[test]
fn rate_limited_cooldown_is_longer_than_generic() {
    let clock = Clock::start();
    let mut rl = EndpointHealth::default();
    rl.record_failure(EndpointErrorKind::RateLimited, clock.now());
    let mut generic = EndpointHealth::default();
    generic.record_failure(EndpointErrorKind::ServerOrTransport, clock.now());
    assert!(rl.cooldown_until.unwrap() > generic.cooldown_until.unwrap());
}

#[test]
fn success_resets_state() {
    let mut state = FailoverState::new(&pool(2));
    state.set_active(0);
    state.mark_active_failed(false);
    assert_eq!(state.health(0).consecutive_failures, 1);
    state.mark_active_success();
    assert_eq!(
        state.health(0),
        EndpointHealth {
            consecutive_failures: 0,
            last_error_kind: None,
            cooldown_until: None,
            successes: 1,
        }
    );
}

#[test]
fn models_url_normalizes_trailing_slash() {
    assert_eq!(
        models_url("https://x.example.com/v1/"),
        "https://x.example.com/v1/models"
    );
    assert_eq!(
        models_url("https://x.example.com/v1"),
        "https://x.example.com/v1/models"
    );
}

#[test]
fn clock_moves_on() {
    let clock = Clock::start();
    let a = clock.now();
    let b = clock.now();
    assert!(b >= a);
    assert!(b.nanos < secs(3600));
    assert_eq!(MAX_READING_NANOS, std::time::Duration::MAX.as_nanos());
}

#[test]
fn cooldown_sequence_doubles_to_the_cap() {
    let expected: Vec<(EndpointErrorKind, Vec<u64>)> = vec![
        (
            EndpointErrorKind::ServerOrTransport,
            vec![30, 60, 120, 240, 480, 600, 600],
        ),
        (
            EndpointErrorKind::RateLimited,
            vec![60, 120, 240, 480, 600, 600],
        ),
    ];
    for (kind, waits) in expected {
        let mut health = EndpointHealth::default();
        for wait in waits {
            health.record_failure(kind, at(1000));
            assert_eq!(health.cooldown_until, cooling(1000, wait));
        }
    }
}

#[test]
fn each_failure_doubles_the_previous_cooldown_whatever_its_kind() {
    let limited = EndpointErrorKind::RateLimited;
    let other = EndpointErrorKind::ServerOrTransport;
    for (kinds, waits) in [
        (vec![limited, other], vec![60, 120]),
        (vec![other, limited, other], vec![30, 60, 120]),
        (
            vec![limited, other, limited, other, other],
            vec![60, 120, 240, 480, 600],
        ),
    ] {
        let mut health = EndpointHealth::default();
        for (kind, wait) in kinds.into_iter().zip(waits) {
            health.record_failure(kind, at(7));
            assert_eq!(health.cooldown_until, cooling(7, wait));
        }
        health.record_success();
        health.record_failure(other, at(7));
        assert_eq!(health.cooldown_until, cooling(7, 30));
    }
}

#[test]
fn models_url_keeps_the_query() {
    for (base, expected) in [
        ("https://x.example.com/v1?k=v", "https://x.example.com/v1/models?k=v"),
        ("https://x.example.com/v1//?k=v/", "https://x.example.com/v1/models?k=v/"),
        ("https://x.example.com?", "https://x.example.com/models?"),
        ("", "/models"),
        ("https://x/v1#a?b", "https://x/v1#a?b/models"),
        ("https://x/v1#a/", "https://x/v1#a/models"),
        ("https://x/v1/?k=v#a", "https://x/v1/models?k=v#a"),
    ] {
        assert_eq!(models_url(base), expected);
    }
    let url = url::Url::parse(&models_url("https://x.example.com/v1?k=v")).unwrap();
    assert_eq!(url.path(), "/v1/models");
    assert_eq!(url.query(), Some("k=v"));
}

#[test]
fn failure_streak_saturates() {
    let mut health = EndpointHealth {
        consecutive_failures: u32::MAX,
        last_error_kind: None,
        cooldown_until: cooling(0, 600),
        successes: u32::MAX,
    };
    health.record_failure(EndpointErrorKind::RateLimited, at(0));
    assert_eq!(health.consecutive_failures, u32::MAX);
    assert_eq!(health.cooldown_until, cooling(0, 600));
    health.record_success();
    assert_eq!(health.successes, u32::MAX);
    assert_eq!(health.consecutive_failures, 0);
}

#[test]
fn saturated_clock_cools_forever() {
    let end = Moment { nanos: u128::MAX };
    let mut health = EndpointHealth::default();
    health.record_failure(EndpointErrorKind::RateLimited, Moment { nanos: u128::MAX - 1 });
    assert_eq!(health.cooldown_until.unwrap().until, end);
    assert_eq!(health.cooldown_until.unwrap().secs, 60);
    assert_eq!(at(1).duration_since(at(2)), 0);
}

#[test]
fn read_failure_cools_exactly() {
    let last = Moment { nanos: MAX_READING_NANOS };
    for (rate_limited, wait) in [(false, 30), (true, 60)] {
        let mut state = FailoverState::new(&pool(1));
        state.set_active(0);
        state.mark_active_failed_at(rate_limited, last);
        let until = state.health(0).cooldown_until.unwrap();
        assert_eq!(until.duration_since(last), secs(wait));
    }
}

#[test]
fn cooldown_ends_at_its_moment() {
    let mut health = EndpointHealth::default();
    assert!(!health.in_cooldown(at(0)));
    health.record_failure(EndpointErrorKind::ServerOrTransport, at(10));
    assert!(health.in_cooldown(Moment { nanos: secs(40) - 1 }));
    assert!(!health.in_cooldown(at(40)));
}

#[test]
fn failed_endpoint_sits_out_and_returns() {
    let mut state = FailoverState::new(&pool(3));
    state.set_active(1);
    state.mark_active_failed_at(false, at(0));
    state.set_active(0);
    assert_eq!(state.next_healthy_at(at(29)), Some(2));
    assert_eq!(state.next_healthy_at(at(30)), Some(1));
    assert!(state.any_in_cooldown_at(at(29)));
    assert!(!state.any_in_cooldown_at(at(30)));
    assert_eq!(state.health(0).consecutive_failures, 0);
    assert_eq!(state.health(2).consecutive_failures, 0);
}

#[test]
fn exhausted_only_when_all_cool() {
    let mut state = FailoverState::new(&pool(2));
    for i in 0..2 {
        state.set_active(i);
        state.mark_active_failed_at(true, at(0));
    }
    assert_eq!(state.next_healthy_at(at(59)), None);
    assert_eq!(state.next_healthy_at(at(60)), Some(0));
}

#[test]
fn primary_has_no_record() {
    let mut state = FailoverState::new(&pool(2));
    assert_eq!(state.active(), None);
    assert_eq!(state.pool_len(), 2);
    assert!(state.threshold_reached_on_active());
    state.mark_active_failed_at(true, at(0));
    state.mark_active_success();
    assert_eq!(state.health(0), EndpointHealth::default());
    assert_eq!(state.health(1), EndpointHealth::default());
}

#[test]
fn second_failure_in_a_row_hops() {
    let mut state = FailoverState::new(&pool(2));
    state.set_active(1);
    assert_eq!(state.active(), Some(1));
    assert!(!state.threshold_reached_on_active());
    state.mark_active_failed_at(false, at(0));
    assert!(!state.threshold_reached_on_active());
    state.mark_active_failed_at(false, at(1));
    assert!(state.threshold_reached_on_active());
    assert!(!threshold_reached(1));
    assert!(threshold_reached(2));
}

#[test]
fn only_rate_limits_and_retryable_errors_hop() {
    assert!(qualifies_for_failover(true, false));
    assert!(qualifies_for_failover(false, true));
    assert!(!qualifies_for_failover(false, false));
}

#[test]
fn probing_is_on_unless_switched_off() {
    assert!(probing_enabled(None));
    assert!(probing_enabled(Some("")));
    assert!(probing_enabled(Some("1")));
    assert!(!probing_enabled(Some("0")));
    assert!(!probing_enabled(Some("False")));
    assert_eq!(
        plan_probe(Some("0"), &endpoint("https://a", "m")),
        ProbePlan::Decided(ProbeOutcome::Authorized)
    );
}

fn probe_with(auth: ProbeAuth) -> ProbePlan {
    ProbePlan::Send(ProbeRequest {
        url: "https://a/v1/models".into(),
        timeout_ms: 1500,
        auth,
    })
}

#[test]
fn probe_carries_the_endpoint_key() {
    let mut ep = endpoint("https://a/v1//", "m");
    assert_eq!(plan_probe(None, &ep), probe_with(ProbeAuth::Anonymous));
    ep.api_key = Some("k".into());
    assert_eq!(plan_probe(None, &ep), probe_with(ProbeAuth::Bearer("k".into())));
    ep.auth_scheme = AuthScheme::XApiKey;
    assert_eq!(
        plan_probe(None, &ep),
        probe_with(ProbeAuth::Header {
            name: "x-api-key".into(),
            value: "k".into(),
        })
    );
}

#[test]
fn probe_outcomes() {
    assert_eq!(probe_outcome(ProbeReply::Status(200)), ProbeOutcome::Authorized);
    for status in [401, 403] {
        assert_eq!(
            probe_outcome(ProbeReply::Status(status)),
            ProbeOutcome::ReachableButUnauthorized
        );
    }
    for status in [204, 404, 500] {
        assert_eq!(probe_outcome(ProbeReply::Status(status)), ProbeOutcome::Unreachable);
    }
    for reply in [
        ProbeReply::ClientUnavailable,
        ProbeReply::TransportError,
        ProbeReply::TimedOut,
    ] {
        assert_eq!(probe_outcome(reply), ProbeOutcome::Unreachable);
    }
    assert!(ProbeOutcome::Authorized.is_pass());
    assert!(ProbeOutcome::ReachableButUnauthorized.is_pass());
    assert!(!ProbeOutcome::Unreachable.is_pass());
}
