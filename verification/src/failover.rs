//! Endpoint failover pool for the same logical model.
//!
//! [`FailoverState`] tracks per-endpoint health for an ordered pool. Pool
//! index 0 is the first alternate; the primary provider itself is conceptually
//! "before" index 0 and never re-entered while a turn runs.
//!
//! Cooldown policy (per endpoint, doubling on repeat failure):
//! - 429 gives 60 s: free-tier windows reset slowly, a quick revisit is wasted.
//! - other failures (5xx, transport, stream) give 30 s.
//! - each consecutive failure doubles the previous cooldown, capped at 10 min.
//! - any success resets the endpoint's counters.

use vstd::prelude::*;
use crate::text;

verus! {

/// First cooldown, in seconds, after a rate-limited request.
pub const RATE_LIMIT_COOLDOWN_SECS: u64 = 60;

/// First cooldown, in seconds, after any other failure.
pub const FAILURE_COOLDOWN_SECS: u64 = 30;

/// Ceiling, in seconds, for the doubling sequence.
pub const MAX_COOLDOWN_SECS: u64 = 600;

/// Nanoseconds in a second.
pub const NANOS_PER_SEC: u128 = 1_000_000_000;

/// Longest span, in nanoseconds, that the standard library can measure: the
/// largest whole number of seconds in 64 bits, and less than a second more.
pub const MAX_READING_NANOS: u128 = 18_446_744_073_709_551_615_999_999_999;

/// Liveness-probe timeout in milliseconds.
pub const PROBE_TIMEOUT_MS: u64 = 1500;

/// Consecutive failures on the active endpoint before a request hops to the
/// next pool entry.
pub const FAILOVER_THRESHOLD: u32 = 2;

/// A reading of the monotonic clock: nanoseconds since the clock was started.
#[derive(Debug, Clone, Copy, PartialEq, Eq, PartialOrd, Ord, Structural)]
pub struct Moment {
    pub nanos: u128,
}

impl Moment {
    /// Whether a clock can read this moment.
    pub open spec fn on_clock(self) -> bool {
        self.nanos <= MAX_READING_NANOS
    }

    /// The moment `secs` seconds later, or the end of time where the clock
    /// cannot count that far.
    pub open spec fn plus_secs(self, secs: nat) -> Moment {
        let sum = self.nanos + secs * NANOS_PER_SEC;
        if sum <= u128::MAX {
            Moment { nanos: sum as u128 }
        } else {
            Moment { nanos: u128::MAX }
        }
    }

    /// The moment `secs` seconds later.
    pub fn after_secs(self, secs: u64) -> (r: Moment)
        ensures
            r == self.plus_secs(secs as nat),
    {
        let delta: u128 = (secs as u128) * NANOS_PER_SEC;
        match self.nanos.checked_add(delta) {
            Some(nanos) => Moment { nanos },
            None => Moment { nanos: u128::MAX },
        }
    }

    /// Nanoseconds from `earlier` to this moment; zero where `earlier` is later.
    pub fn duration_since(self, earlier: Moment) -> (r: u128)
        ensures
            r == (if self.nanos >= earlier.nanos {
                self.nanos - earlier.nanos
            } else {
                0
            }),
    {
        self.nanos.saturating_sub(earlier.nanos)
    }
}

/// The monotonic instant of the standard library.
#[verifier::external_type_specification]
#[verifier::external_body]
pub struct ExInstant(std::time::Instant);

/// Calls `std::time::Instant::now`. Nothing is claimed of the reading.
#[verifier::external_body]
fn instant_now() -> std::time::Instant {
    std::time::Instant::now()
}

/// Calls `std::time::Instant::elapsed`. Which span it is depends on time, and is
/// left unsaid.
#[verifier::external_body]
fn elapsed_since(origin: &std::time::Instant) -> std::time::Duration {
    origin.elapsed()
}

/// Calls `std::time::Duration::as_nanos`. A duration has a 64-bit number of whole
/// seconds and less than a second more; the contract says that its nanoseconds
/// are within that range.
#[verifier::external_body]
fn nanos_of(span: &std::time::Duration) -> (r: u128)
    ensures
        r <= MAX_READING_NANOS,
{
    span.as_nanos()
}

/// A monotonic clock that counts from the moment it was started.
#[derive(Debug)]
pub struct Clock {
    origin: std::time::Instant,
}

impl Clock {
    /// A clock that starts counting now.
    pub fn start() -> Clock {
        Clock { origin: instant_now() }
    }

    /// The current reading.
    pub fn now(&self) -> (r: Moment)
        ensures
            r.on_clock(),
    {
        Moment { nanos: nanos_of(&elapsed_since(&self.origin)) }
    }
}

/// Outcome of probing one candidate before committing to it.
#[derive(Debug, Clone, Copy, PartialEq, Eq, Structural)]
pub enum ProbeOutcome {
    /// 200: reachable and authorized; commit immediately.
    Authorized,
    /// 401 or 403: reachable but this key cannot list models. Some gateways
    /// require a paid key for `/models` yet still serve chat, so this
    /// candidate stays eligible as a last resort.
    ReachableButUnauthorized,
    /// Transport error or any other status.
    Unreachable,
}

impl ProbeOutcome {
    /// Whether the candidate stays eligible.
    pub fn is_pass(self) -> (r: bool)
        ensures
            r == (self != ProbeOutcome::Unreachable),
    {
        match self {
            ProbeOutcome::Authorized => true,
            ProbeOutcome::ReachableButUnauthorized => true,
            ProbeOutcome::Unreachable => false,
        }
    }
}

/// What kind of failure an endpoint last showed.
#[derive(Debug, Clone, Copy, PartialEq, Eq, Structural)]
pub enum EndpointErrorKind {
    RateLimited,
    ServerOrTransport,
}

/// A cooldown: when it ends, and how long it was set for.
#[derive(Debug, Clone, Copy, PartialEq, Eq, PartialOrd, Ord, Structural)]
pub struct Cooldown {
    pub until: Moment,
    pub secs: u64,
}

impl Cooldown {
    /// Nanoseconds from `earlier` to the end of the cooldown; zero where it has
    /// ended by then.
    pub fn duration_since(self, earlier: Moment) -> (r: u128)
        ensures
            r == (if self.until.nanos >= earlier.nanos {
                self.until.nanos - earlier.nanos
            } else {
                0
            }),
    {
        self.until.duration_since(earlier)
    }
}

/// Per-endpoint health record.
#[derive(Debug, Clone, Copy, PartialEq, Eq)]
pub struct EndpointHealth {
    pub consecutive_failures: u32,
    pub last_error_kind: Option<EndpointErrorKind>,
    /// The cooldown that the latest failure of the streak set.
    pub cooldown_until: Option<Cooldown>,
    pub successes: u32,
}

/// `n + 1`, held at the largest `u32`.
pub open spec fn counted_up(n: u32) -> u32 {
    if n == u32::MAX {
        u32::MAX
    } else {
        (n + 1) as u32
    }
}

/// First cooldown, in seconds, after a failure of this kind.
pub open spec fn base_cooldown(kind: EndpointErrorKind) -> nat {
    match kind {
        EndpointErrorKind::RateLimited => RATE_LIMIT_COOLDOWN_SECS as nat,
        EndpointErrorKind::ServerOrTransport => FAILURE_COOLDOWN_SECS as nat,
    }
}

/// Cooldown, in seconds, that a failure of this kind sets, given the one that
/// the failure before it in the streak set: the base of the kind for the first
/// failure, twice the previous cooldown for every later one, capped.
pub open spec fn cooldown_secs(kind: EndpointErrorKind, previous: Option<nat>) -> nat {
    match previous {
        None => base_cooldown(kind),
        Some(secs) => if 2 * secs <= MAX_COOLDOWN_SECS {
            2 * secs
        } else {
            MAX_COOLDOWN_SECS as nat
        },
    }
}

/// Cooldown, in seconds, that the last failure of a streak of these kinds sets.
pub open spec fn streak_secs(kinds: Seq<EndpointErrorKind>) -> nat
    recommends
        kinds.len() > 0,
    decreases kinds.len(),
{
    if kinds.len() <= 1 {
        cooldown_secs(kinds.last(), None)
    } else {
        cooldown_secs(kinds.last(), Some(streak_secs(kinds.drop_last())))
    }
}

impl EndpointHealth {
    /// A record with no history.
    pub open spec fn fresh() -> EndpointHealth {
        EndpointHealth {
            consecutive_failures: 0,
            last_error_kind: None,
            cooldown_until: None,
            successes: 0,
        }
    }

    /// A record that failures and successes can lead to: a cooldown is set
    /// exactly while a streak of failures lasts, and has a length that one can
    /// have.
    pub open spec fn sound(self) -> bool {
        &&& self.consecutive_failures == 0 <==> self.cooldown_until is None
        &&& self.cooldown_until matches Some(cooldown) ==> FAILURE_COOLDOWN_SECS <= cooldown.secs
            <= MAX_COOLDOWN_SECS
    }

    /// Whether the endpoint is cooling down at `now`.
    pub open spec fn cooling(self, now: Moment) -> bool {
        self.cooldown_until is Some && self.cooldown_until->0.until.nanos > now.nanos
    }

    /// The length, in seconds, of the cooldown that the streak has reached.
    pub open spec fn reached_secs(self) -> Option<nat> {
        match self.cooldown_until {
            Some(cooldown) => Some(cooldown.secs as nat),
            None => None,
        }
    }

    /// The record after a failure at `now`.
    pub open spec fn failed(self, kind: EndpointErrorKind, now: Moment) -> EndpointHealth {
        let secs = cooldown_secs(kind, self.reached_secs());
        EndpointHealth {
            consecutive_failures: counted_up(self.consecutive_failures),
            last_error_kind: Some(kind),
            cooldown_until: Some(Cooldown { until: now.plus_secs(secs), secs: secs as u64 }),
            successes: self.successes,
        }
    }

    /// The record after a success.
    pub open spec fn succeeded(self) -> EndpointHealth {
        EndpointHealth {
            consecutive_failures: 0,
            last_error_kind: None,
            cooldown_until: None,
            successes: counted_up(self.successes),
        }
    }

    /// Whether the endpoint is cooling down at `now`.
    pub fn in_cooldown(&self, now: Moment) -> (r: bool)
        ensures
            r == self.cooling(now),
    {
        match self.cooldown_until {
            Some(cooldown) => cooldown.until.nanos > now.nanos,
            None => false,
        }
    }

    /// Records a failure seen at `now` and starts the cooldown it calls for.
    pub fn record_failure(&mut self, kind: EndpointErrorKind, now: Moment)
        ensures
            *final(self) == old(self).failed(kind, now),
    {
        self.consecutive_failures = self.consecutive_failures.saturating_add(1);
        self.last_error_kind = Some(kind);
        let secs: u64 = match self.cooldown_until {
            Some(previous) => if previous.secs <= MAX_COOLDOWN_SECS / 2 {
                previous.secs * 2
            } else {
                MAX_COOLDOWN_SECS
            },
            None => match kind {
                EndpointErrorKind::RateLimited => RATE_LIMIT_COOLDOWN_SECS,
                EndpointErrorKind::ServerOrTransport => FAILURE_COOLDOWN_SECS,
            },
        };
        self.cooldown_until = Some(Cooldown { until: now.after_secs(secs), secs });
    }

    /// Records a success, which clears the failure history.
    pub fn record_success(&mut self)
        ensures
            *final(self) == old(self).succeeded(),
    {
        self.consecutive_failures = 0;
        self.last_error_kind = None;
        self.cooldown_until = None;
        self.successes = self.successes.saturating_add(1);
    }
}

impl Default for EndpointHealth {
    fn default() -> (r: Self)
        ensures
            r == EndpointHealth::fresh(),
    {
        EndpointHealth {
            consecutive_failures: 0,
            last_error_kind: None,
            cooldown_until: None,
            successes: 0,
        }
    }
}

/// The first failure of a streak sets the base cooldown of its kind: a minute
/// when rate limited, half a minute otherwise.
pub proof fn law_first_cooldown(record: EndpointHealth, kind: EndpointErrorKind, now: Moment)
    requires
        record.sound(),
        record.consecutive_failures == 0,
    ensures
        ({
            let set = record.failed(kind, now).cooldown_until;
            &&& set is Some
            &&& set->0.secs == base_cooldown(kind)
            &&& set->0.until == now.plus_secs(base_cooldown(kind))
            &&& kind == EndpointErrorKind::RateLimited ==> set->0.secs == 60
            &&& kind == EndpointErrorKind::ServerOrTransport ==> set->0.secs == 30
        }),
{
}

/// Each further failure of a streak doubles the previous cooldown, up to the
/// cap, whatever the kinds of the two.
pub proof fn law_cooldown_doubles(
    record: EndpointHealth,
    first: EndpointErrorKind,
    first_at: Moment,
    second: EndpointErrorKind,
    second_at: Moment,
)
    requires
        record.sound(),
    ensures
        ({
            let once = record.failed(first, first_at).cooldown_until->0;
            let twice = record.failed(first, first_at).failed(second, second_at).cooldown_until->0;
            &&& twice.secs == (if 2 * once.secs <= MAX_COOLDOWN_SECS {
                2 * once.secs
            } else {
                MAX_COOLDOWN_SECS as int
            })
            &&& twice.until == second_at.plus_secs(twice.secs as nat)
        }),
{
}

/// Every cooldown is at least the base of the kind that set it and at most ten
/// minutes, and failures and successes keep a record sound.
pub proof fn law_cooldown_bounds(record: EndpointHealth, kind: EndpointErrorKind, now: Moment)
    requires
        record.sound(),
    ensures
        ({
            let after = record.failed(kind, now);
            &&& after.sound()
            &&& base_cooldown(kind) <= after.cooldown_until->0.secs <= MAX_COOLDOWN_SECS
        }),
        record.succeeded().sound(),
        EndpointHealth::fresh().sound(),
{
}

/// A streak's cooldown is the base of its first failure, doubled once for each
/// later one, and capped.
pub proof fn law_streak_doubles_its_first_cooldown(kinds: Seq<EndpointErrorKind>)
    requires
        kinds.len() > 0,
    ensures
        ({
            let doubled = base_cooldown(kinds[0]) * vstd::arithmetic::power2::pow2(
                (kinds.len() - 1) as nat,
            );
            streak_secs(kinds) == (if doubled <= MAX_COOLDOWN_SECS {
                doubled
            } else {
                MAX_COOLDOWN_SECS as nat
            })
        }),
    decreases kinds.len(),
{
    let base = base_cooldown(kinds[0]);
    if kinds.len() == 1 {
        vstd::arithmetic::power2::lemma2_to64();
        let one = vstd::arithmetic::power2::pow2(0);
        assert(base * one == base) by (nonlinear_arith)
            requires
                one == 1,
        ;
    } else {
        let rest = kinds.drop_last();
        law_streak_doubles_its_first_cooldown(rest);
        assert(rest[0] == kinds[0]);
        vstd::arithmetic::power2::lemma_pow2_unfold((kinds.len() - 1) as nat);
        let p = vstd::arithmetic::power2::pow2((kinds.len() - 2) as nat);
        assert(base * (2 * p) == 2 * (base * p)) by (nonlinear_arith);
    }
}

/// A streak that a rate limit began never has a shorter cooldown than one of the
/// same length that another failure began, and has a longer one until both reach
/// the cap.
pub proof fn law_rate_limit_cools_longer(
    limited: Seq<EndpointErrorKind>,
    other: Seq<EndpointErrorKind>,
)
    requires
        limited.len() == other.len() > 0,
        limited[0] == EndpointErrorKind::RateLimited,
        other[0] == EndpointErrorKind::ServerOrTransport,
    ensures
        streak_secs(limited) >= streak_secs(other),
        streak_secs(other) < MAX_COOLDOWN_SECS ==> streak_secs(limited) > streak_secs(other),
{
    law_streak_doubles_its_first_cooldown(limited);
    law_streak_doubles_its_first_cooldown(other);
    let p = vstd::arithmetic::power2::pow2((limited.len() - 1) as nat);
    vstd::arithmetic::power2::lemma_pow2_pos((limited.len() - 1) as nat);
    assert(60 * p == 2 * (30 * p)) by (nonlinear_arith);
    assert(30 * p > 0) by (nonlinear_arith)
        requires
            p >= 1,
    ;
}

/// The record after failures of these kinds, each at its moment.
pub open spec fn after_failures(
    record: EndpointHealth,
    kinds: Seq<EndpointErrorKind>,
    moments: Seq<Moment>,
) -> EndpointHealth
    decreases kinds.len(),
{
    if kinds.len() == 0 {
        record
    } else {
        after_failures(record, kinds.drop_last(), moments.drop_last()).failed(
            kinds.last(),
            moments.last(),
        )
    }
}

/// Failures in a row, from a record without a streak, set the cooldown of their
/// streak.
pub proof fn law_failures_in_a_row_set_the_streak_cooldown(
    record: EndpointHealth,
    kinds: Seq<EndpointErrorKind>,
    moments: Seq<Moment>,
)
    requires
        record.sound(),
        record.consecutive_failures == 0,
        kinds.len() > 0,
        kinds.len() == moments.len(),
    ensures
        after_failures(record, kinds, moments).reached_secs() == Some(streak_secs(kinds)),
    decreases kinds.len(),
{
    law_streak_doubles_its_first_cooldown(kinds);
    if kinds.len() > 1 {
        law_failures_in_a_row_set_the_streak_cooldown(
            record,
            kinds.drop_last(),
            moments.drop_last(),
        );
    } else {
        assert(after_failures(record, kinds.drop_last(), moments.drop_last()) == record);
    }
}

/// How an endpoint wants its key presented.
#[derive(Debug, Clone, Copy, PartialEq, Eq, Structural)]
pub enum AuthScheme {
    Bearer,
    XApiKey,
}

/// One alternate provider of the same logical model.
#[derive(Debug, Clone, PartialEq, Eq)]
pub struct FailoverEndpoint {
    pub base_url: String,
    pub model: String,
    pub api_key: Option<String>,
    pub auth_scheme: AuthScheme,
    /// The name of the protocol that the endpoint speaks; empty for the default.
    pub api_backend: String,
    /// Headers to send beside the key.
    pub extra_headers: Vec<(String, String)>,
    /// Query parameters to send.
    pub query_params: Vec<(String, String)>,
}

/// The ordered alternates of a request.
#[derive(Debug, Clone, PartialEq, Eq)]
pub struct FailoverPool {
    pub endpoints: Vec<FailoverEndpoint>,
}

/// What a [`FailoverState`] stands for: the endpoint in use (none while the
/// primary is) and the record of each pool entry.
pub struct FailoverView {
    pub active: Option<int>,
    pub health: Seq<EndpointHealth>,
}

impl FailoverView {
    /// The endpoint in use is one of the pool's, and every record is sound.
    pub open spec fn valid(self) -> bool {
        &&& self.active matches Some(i) ==> 0 <= i < self.health.len()
        &&& forall|i: int| 0 <= i < self.health.len() ==> (#[trigger] self.health[i]).sound()
    }

    /// Where the rotation begins: right after the active endpoint, or at the
    /// first alternate.
    pub open spec fn start(self) -> int {
        match self.active {
            Some(i) => (i + 1) % (self.health.len() as int),
            None => 0,
        }
    }

    /// The `k`-th candidate of the rotation.
    pub open spec fn candidate(self, k: int) -> int {
        (self.start() + k) % (self.health.len() as int)
    }

    /// The first candidate from the `k`-th on that is not cooling at `now`.
    pub open spec fn healthy_from(self, k: int, now: Moment) -> Option<int>
        decreases self.health.len() - k,
    {
        if k >= self.health.len() {
            None
        } else if !self.health[self.candidate(k)].cooling(now) {
            Some(self.candidate(k))
        } else {
            self.healthy_from(k + 1, now)
        }
    }

    /// The endpoint to hop to at `now`.
    pub open spec fn next_healthy(self, now: Moment) -> Option<int> {
        self.healthy_from(0, now)
    }

    /// The state after the endpoint in use failed at `now`. The primary has no
    /// record, so its failure changes nothing.
    pub open spec fn failed(self, rate_limited: bool, now: Moment) -> FailoverView {
        match self.active {
            Some(i) => FailoverView {
                active: self.active,
                health: self.health.update(
                    i,
                    self.health[i].failed(
                        if rate_limited {
                            EndpointErrorKind::RateLimited
                        } else {
                            EndpointErrorKind::ServerOrTransport
                        },
                        now,
                    ),
                ),
            },
            None => self,
        }
    }

    /// The state after the endpoint in use succeeded.
    pub open spec fn succeeded(self) -> FailoverView {
        match self.active {
            Some(i) => FailoverView {
                active: self.active,
                health: self.health.update(i, self.health[i].succeeded()),
            },
            None => self,
        }
    }

    /// The state after sampling moved to pool index `i`.
    pub open spec fn committed(self, i: int) -> FailoverView {
        FailoverView { active: Some(i), health: self.health }
    }

    /// Whether the endpoint in use failed often enough to hop. The primary
    /// always has.
    pub open spec fn over_threshold(self) -> bool {
        match self.active {
            Some(i) => self.health[i].consecutive_failures >= FAILOVER_THRESHOLD,
            None => true,
        }
    }

    /// Whether some endpoint is cooling at `now`.
    pub open spec fn some_cooling(self, now: Moment) -> bool {
        exists|i: int| 0 <= i < self.health.len() && self.health[i].cooling(now)
    }
}

/// An endpoint index as a mathematical one.
pub open spec fn index_view(i: Option<usize>) -> Option<int> {
    match i {
        Some(i) => Some(i as int),
        None => None,
    }
}

/// Health bookkeeping for one request's failover pool.
///
/// Cheap to construct per task; lives only as long as the request loop.
#[derive(Debug)]
pub struct FailoverState {
    active: Option<usize>,
    health: Vec<EndpointHealth>,
    clock: Clock,
}

impl View for FailoverState {
    type V = FailoverView;

    closed spec fn view(&self) -> FailoverView {
        FailoverView { active: index_view(self.active), health: self.health@ }
    }
}

impl FailoverState {
    /// The clock that cooldowns are measured on.
    pub closed spec fn measured_on(self) -> Clock {
        self.clock
    }

    /// Builds state over `pool`. The primary is not part of the tracked
    /// indices; [`FailoverState::active`] starts at `None`.
    pub fn new(pool: &FailoverPool) -> (r: Self)
        ensures
            r@.valid(),
            r@.active is None,
            r@.health == Seq::new(pool.endpoints@.len(), |i: int| EndpointHealth::fresh()),
    {
        let n: usize = pool.endpoints.len();
        let mut health: Vec<EndpointHealth> = Vec::new();
        while health.len() < n
            invariant
                health@.len() <= n,
                health@ == Seq::new(health@.len(), |i: int| EndpointHealth::fresh()),
            decreases n - health@.len(),
        {
            health.push(EndpointHealth::default());
        }
        FailoverState { active: None, health, clock: Clock::start() }
    }

    /// Index of the endpoint currently being sampled (`None` = primary).
    pub fn active(&self) -> (r: Option<usize>)
        ensures
            index_view(r) == self@.active,
    {
        self.active
    }

    /// The health record of pool index `idx`.
    pub fn health(&self, idx: usize) -> (r: EndpointHealth)
        requires
            idx < self@.health.len(),
        ensures
            r == self@.health[idx as int],
    {
        self.health[idx]
    }

    /// Records a failure at `now` against the active endpoint, or nothing while
    /// the primary is in use.
    pub fn mark_active_failed_at(&mut self, rate_limited: bool, now: Moment)
        requires
            old(self)@.valid(),
        ensures
            final(self)@ == old(self)@.failed(rate_limited, now),
            final(self)@.valid(),
            final(self).measured_on() == old(self).measured_on(),
    {
        let kind: EndpointErrorKind = if rate_limited {
            EndpointErrorKind::RateLimited
        } else {
            EndpointErrorKind::ServerOrTransport
        };
        if let Some(idx) = self.active {
            let mut record: EndpointHealth = self.health[idx];
            record.record_failure(kind, now);
            self.health.set(idx, record);
        }
    }

    /// Records a failure, now, against the active endpoint.
    pub fn mark_active_failed(&mut self, rate_limited: bool)
        requires
            old(self)@.valid(),
        ensures
            exists|now: Moment|
                now.on_clock() && final(self)@ == #[trigger] old(self)@.failed(rate_limited, now),
            final(self)@.valid(),
            final(self).measured_on() == old(self).measured_on(),
    {
        let now: Moment = self.clock.now();
        self.mark_active_failed_at(rate_limited, now);
    }

    /// Whether the active endpoint has hit [`FAILOVER_THRESHOLD`] consecutive
    /// failures and the request should hop. The primary always has: it has no
    /// per-request history to accumulate a streak on.
    pub fn threshold_reached_on_active(&self) -> (r: bool)
        requires
            self@.valid(),
        ensures
            r == self@.over_threshold(),
    {
        match self.active {
            Some(idx) => threshold_reached(self.health[idx].consecutive_failures),
            None => true,
        }
    }

    /// Next healthy pool index rotating after the active one, skipping
    /// endpoints that are cooling down at `now`.
    pub fn next_healthy_at(&self, now: Moment) -> (r: Option<usize>)
        requires
            self@.valid(),
        ensures
            index_view(r) == self@.next_healthy(now),
    {
        let n: usize = self.health.len();
        if n == 0 {
            return None;
        }
        let start: usize = match self.active {
            Some(active) => if active + 1 == n {
                0
            } else {
                active + 1
            },
            None => 0,
        };
        proof {
            assert(start == self@.start()) by {
                if let Some(active) = self.active {
                    if active + 1 == n {
                        assert((active + 1) % (n as int) == 0) by (nonlinear_arith)
                            requires
                                active + 1 == n,
                                n > 0,
                        ;
                    } else {
                        vstd::arithmetic::div_mod::lemma_small_mod((active + 1) as nat, n as nat);
                    }
                }
            }
        }
        let mut offset: usize = 0;
        while offset < n
            invariant
                offset <= n,
                start < n,
                n == self.health@.len(),
                start == self@.start(),
                self@.next_healthy(now) == self@.healthy_from(offset as int, now),
            decreases n - offset,
        {
            let idx: usize = if offset < n - start {
                start + offset
            } else {
                offset - (n - start)
            };
            proof {
                let sum = start + offset;
                assert(idx == self@.candidate(offset as int)) by {
                    if offset < n - start {
                        vstd::arithmetic::div_mod::lemma_small_mod(sum as nat, n as nat);
                    } else {
                        vstd::arithmetic::div_mod::lemma_small_mod((sum - n) as nat, n as nat);
                        vstd::arithmetic::div_mod::lemma_mod_sub_multiples_vanish(sum, n as int);
                    }
                }
            }
            if !self.health[idx].in_cooldown(now) {
                return Some(idx);
            }
            offset = offset + 1;
        }
        None
    }

    /// Next healthy pool index rotating after the active one, skipping
    /// endpoints that are cooling down now. `None` when every candidate is.
    pub fn next_healthy(&self) -> (r: Option<usize>)
        requires
            self@.valid(),
        ensures
            exists|now: Moment|
                now.on_clock() && index_view(r) == #[trigger] self@.next_healthy(now),
    {
        let now: Moment = self.clock.now();
        self.next_healthy_at(now)
    }

    /// Commits sampling to pool index `idx`.
    pub fn set_active(&mut self, idx: usize)
        requires
            old(self)@.valid(),
            idx < old(self)@.health.len(),
        ensures
            final(self)@ == old(self)@.committed(idx as int),
            final(self)@.valid(),
            final(self).measured_on() == old(self).measured_on(),
    {
        self.active = Some(idx);
    }

    /// Records success for the active endpoint, resetting its failure counters.
    pub fn mark_active_success(&mut self)
        requires
            old(self)@.valid(),
        ensures
            final(self)@ == old(self)@.succeeded(),
            final(self)@.valid(),
            final(self).measured_on() == old(self).measured_on(),
    {
        if let Some(idx) = self.active {
            let mut record: EndpointHealth = self.health[idx];
            record.record_success();
            self.health.set(idx, record);
        }
    }

    /// Number of tracked pool endpoints.
    pub fn pool_len(&self) -> (r: usize)
        ensures
            r == self@.health.len(),
    {
        self.health.len()
    }

    /// Whether any endpoint is cooling down at `now`.
    pub fn any_in_cooldown_at(&self, now: Moment) -> (r: bool)
        ensures
            r == self@.some_cooling(now),
    {
        let n: usize = self.health.len();
        let mut i: usize = 0;
        while i < n
            invariant
                i <= n,
                n == self.health@.len(),
                forall|j: int| 0 <= j < i ==> !self@.health[j].cooling(now),
            decreases n - i,
        {
            if self.health[i].in_cooldown(now) {
                proof {
                    assert(self@.health[i as int].cooling(now));
                }
                return true;
            }
            i = i + 1;
        }
        false
    }

    /// Whether any endpoint is still cooling down.
    pub fn any_in_cooldown(&self) -> (r: bool)
        ensures
            exists|now: Moment| now.on_clock() && r == #[trigger] self@.some_cooling(now),
    {
        let now: Moment = self.clock.now();
        self.any_in_cooldown_at(now)
    }
}

/// Whether a streak of `consecutive` failures, the latest included, justifies
/// hopping to another endpoint.
pub fn threshold_reached(consecutive: u32) -> (r: bool)
    ensures
        r == (consecutive >= FAILOVER_THRESHOLD),
{
    consecutive >= FAILOVER_THRESHOLD
}

/// Whether an error is one that a hop to another endpoint could plausibly fix:
/// a rate limit, or anything the retry classifier would retry.
pub fn qualifies_for_failover(is_rate_limited: bool, is_retryable: bool) -> (r: bool)
    ensures
        r == (is_rate_limited || is_retryable),
{
    is_rate_limited || is_retryable
}

/// `base` without the slashes at its end.
pub open spec fn without_trailing_slashes(base: Seq<char>) -> Seq<char>
    decreases base.len(),
{
    if base.len() > 0 && base.last() == '/' {
        without_trailing_slashes(base.drop_last())
    } else {
        base
    }
}

/// Where a query or a fragment starts in `url`, at or behind `i`; the end where
/// neither does.
pub open spec fn first_mark(url: Seq<char>, i: int) -> int
    decreases url.len() - i,
{
    if i >= url.len() {
        url.len() as int
    } else if url[i] == '?' || url[i] == '#' {
        i
    } else {
        first_mark(url, i + 1)
    }
}

/// Where the query of `url` starts; the end where it has none. A question mark
/// inside a fragment starts no query.
pub open spec fn query_start(url: Seq<char>) -> int {
    let mark = first_mark(url, 0);
    if mark < url.len() && url[mark] == '?' {
        mark
    } else {
        url.len() as int
    }
}

/// `url` before its query.
pub open spec fn before_query(url: Seq<char>) -> Seq<char> {
    url.take(query_start(url))
}

/// `url` from the question mark of its query on; empty where it has none.
pub open spec fn query_of(url: Seq<char>) -> Seq<char> {
    url.skip(query_start(url))
}

/// Where an endpoint lists its models: `/models` below the path of its base URL,
/// with the base URL's query.
pub open spec fn models_of(base_url: Seq<char>) -> Seq<char> {
    without_trailing_slashes(before_query(base_url)) + "/models"@ + query_of(base_url)
}

fn strip_trailing_slashes(base: &str) -> (r: &str)
    ensures
        r@ == without_trailing_slashes(base@),
{
    let chars: Vec<char> = text::chars_of(base);
    let mut n: usize = chars.len();
    proof {
        assert(base@.take(n as int) =~= base@);
    }
    while n > 0 && chars[n - 1] == '/'
        invariant
            n <= chars@.len(),
            chars@ == base@,
            without_trailing_slashes(base@) == without_trailing_slashes(base@.take(n as int)),
        decreases n,
    {
        proof {
            assert(base@.take(n as int).drop_last() =~= base@.take(n - 1));
        }
        n = n - 1;
    }
    let head: &str = base.substring_char(0, n);
    proof {
        assert(head@ =~= base@.take(n as int));
    }
    head
}

/// `{base}/models` with trailing-slash normalization; query parameters on the
/// base URL are preserved.
pub fn models_url(base_url: &str) -> (r: String)
    ensures
        r@ == models_of(base_url@),
{
    let chars: Vec<char> = text::chars_of(base_url);
    let total: usize = chars.len();
    let mut mark: usize = 0;
    while mark < total && chars[mark] != '?' && chars[mark] != '#'
        invariant
            mark <= total,
            total == chars@.len(),
            chars@ == base_url@,
            first_mark(base_url@, 0) == first_mark(base_url@, mark as int),
        decreases total - mark,
    {
        mark = mark + 1;
    }
    let start: usize = if mark < total && chars[mark] == '?' {
        mark
    } else {
        total
    };
    let head: &str = base_url.substring_char(0, start);
    let query: &str = base_url.substring_char(start, total);
    proof {
        assert(start == query_start(base_url@));
        assert(head@ =~= before_query(base_url@));
        assert(query@ =~= query_of(base_url@));
    }
    let mut r: String = strip_trailing_slashes(head).to_owned();
    r.append("/models");
    r.append(query);
    r
}

proof fn lemma_only_slashes_go(base: Seq<char>)
    ensures
        ({
            let kept = without_trailing_slashes(base);
            &&& kept.len() <= base.len()
            &&& kept == base.take(kept.len() as int)
            &&& forall|k: int| kept.len() <= k < base.len() ==> base[k] == '/'
        }),
    decreases base.len(),
{
    if base.len() > 0 && base.last() == '/' {
        lemma_only_slashes_go(base.drop_last());
        let kept = without_trailing_slashes(base);
        assert(kept =~= base.take(kept.len() as int));
        assert forall|k: int| kept.len() <= k < base.len() implies base[k] == '/' by {
            if k < base.len() - 1 {
                assert(base.drop_last()[k] == '/');
            }
        }
    } else {
        assert(base.take(base.len() as int) =~= base);
    }
}

proof fn lemma_first_mark(url: Seq<char>, from: int)
    requires
        0 <= from <= url.len(),
    ensures
        ({
            let mark = first_mark(url, from);
            &&& from <= mark <= url.len()
            &&& mark < url.len() ==> url[mark] == '?' || url[mark] == '#'
            &&& forall|j: int| from <= j < mark ==> url[j] != '?' && url[j] != '#'
        }),
    decreases url.len() - from,
{
    if from < url.len() && url[from] != '?' && url[from] != '#' {
        lemma_first_mark(url, from + 1);
    }
}

proof fn lemma_first_mark_is(url: Seq<char>, from: int, at: int)
    requires
        0 <= from <= at <= url.len(),
        at < url.len() ==> url[at] == '?' || url[at] == '#',
        forall|j: int| from <= j < at ==> url[j] != '?' && url[j] != '#',
    ensures
        first_mark(url, from) == at,
    decreases at - from,
{
    if from < at {
        lemma_first_mark_is(url, from + 1, at);
    }
}

/// The models are asked for below the base URL's path, with its query as it
/// stands.
pub proof fn law_models_url_keeps_the_query(base_url: Seq<char>)
    ensures
        query_of(models_of(base_url)) == query_of(base_url),
        before_query(models_of(base_url)) == without_trailing_slashes(before_query(base_url))
            + "/models"@,
{
    reveal_strlit("/models");
    let path = before_query(base_url);
    let query = query_of(base_url);
    let kept = without_trailing_slashes(path);
    let head = kept + "/models"@;
    let whole = models_of(base_url);
    let n = head.len() as int;
    let mark = first_mark(base_url, 0);
    lemma_first_mark(base_url, 0);
    lemma_only_slashes_go(path);
    assert(whole =~= head + query);
    assert forall|j: int| 0 <= j < kept.len() implies whole[j] == base_url[j] by {
        assert(kept[j] == path[j]);
    }
    if mark < base_url.len() && base_url[mark] == '#' {
        assert(path =~= base_url);
        assert(mark < kept.len()) by {
            if kept.len() <= mark {
                assert(path[mark] == '/');
            }
        }
        lemma_first_mark_is(whole, 0, mark);
    } else {
        assert forall|j: int| 0 <= j < n implies whole[j] != '?' && whole[j] != '#' by {
            if j < kept.len() {
                assert(whole[j] == base_url[j]);
            } else {
                assert(whole[j] == "/models"@[j - kept.len()]);
            }
        }
        if mark < base_url.len() {
            assert(whole[n] == query[0]);
        }
        lemma_first_mark_is(whole, 0, n);
    }
    assert(whole.take(n) =~= head);
    assert(whole.skip(n) =~= query);
    if query.len() == 0 {
        assert(whole =~= head);
    }
}

/// Whether the probe setting asks for liveness probing before a commit. On
/// unless it is `0` or `false` in any case.
pub open spec fn probing_on(setting: Option<Seq<char>>) -> bool {
    match setting {
        Some(v) => !(v == "0"@ || text::ascii_lower(v) == text::ascii_lower(
            "false"@,
        )),
        None => true,
    }
}

/// Whether the probe setting, where there is one, leaves probing on.
pub fn probing_enabled(setting: Option<&str>) -> (r: bool)
    ensures
        r == probing_on(
            match setting {
                Some(v) => Some(v@),
                None => None,
            },
        ),
{
    match setting {
        Some(v) => !(text::same_text(v, "0") || text::same_ignoring_ascii_case(v, "false")),
        None => true,
    }
}

/// The header a probe presents its key in.
#[derive(Debug, Clone, PartialEq, Eq)]
pub enum ProbeAuth {
    Anonymous,
    Bearer(String),
    Header { name: String, value: String },
}

/// One liveness probe: `GET url` with the endpoint's key.
#[derive(Debug, Clone, PartialEq, Eq)]
pub struct ProbeRequest {
    pub url: String,
    pub auth: ProbeAuth,
    pub timeout_ms: u64,
}

impl ProbeRequest {
    /// Whether this is the probe that `endpoint` calls for.
    pub open spec fn probes(self, endpoint: FailoverEndpoint) -> bool {
        &&& self.url@ == models_of(endpoint.base_url@)
        &&& self.timeout_ms == PROBE_TIMEOUT_MS
        &&& match (endpoint.api_key, endpoint.auth_scheme) {
            (None, _) => self.auth == ProbeAuth::Anonymous,
            (Some(key), AuthScheme::Bearer) => self.auth matches ProbeAuth::Bearer(k) && k@ == key@,
            (Some(key), AuthScheme::XApiKey) => self.auth matches ProbeAuth::Header { name, value }
                && name@ == "x-api-key"@ && value@ == key@,
        }
    }
}

/// How to probe a candidate.
#[derive(Debug, Clone, PartialEq, Eq)]
pub enum ProbePlan {
    /// The outcome without sending anything.
    Decided(ProbeOutcome),
    /// Send this, then ask [`probe_outcome`].
    Send(ProbeRequest),
}

/// How to probe `endpoint` before committing to it. Where probing is off the
/// candidate passes unprobed.
pub fn plan_probe(setting: Option<&str>, endpoint: &FailoverEndpoint) -> (r: ProbePlan)
    ensures
        if probing_on(
            match setting {
                Some(v) => Some(v@),
                None => None,
            },
        ) {
            r matches ProbePlan::Send(request) && request.probes(*endpoint)
        } else {
            r == ProbePlan::Decided(ProbeOutcome::Authorized)
        },
{
    if !probing_enabled(setting) {
        return ProbePlan::Decided(ProbeOutcome::Authorized);
    }
    let auth: ProbeAuth = match &endpoint.api_key {
        None => ProbeAuth::Anonymous,
        Some(key) => match endpoint.auth_scheme {
            AuthScheme::Bearer => ProbeAuth::Bearer(key.clone()),
            AuthScheme::XApiKey => ProbeAuth::Header {
                name: "x-api-key".to_owned(),
                value: key.clone(),
            },
        },
    };
    ProbePlan::Send(
        ProbeRequest {
            url: models_url(endpoint.base_url.as_str()),
            auth,
            timeout_ms: PROBE_TIMEOUT_MS,
        },
    )
}

/// What came of sending a probe.
#[derive(Debug, Clone, Copy, PartialEq, Eq, Structural)]
pub enum ProbeReply {
    ClientUnavailable,
    TransportError,
    TimedOut,
    Status(u16),
}

/// What a probe's reply says of the candidate.
pub open spec fn outcome_of(reply: ProbeReply) -> ProbeOutcome {
    match reply {
        ProbeReply::Status(code) => if code == 200 {
            ProbeOutcome::Authorized
        } else if code == 401 || code == 403 {
            ProbeOutcome::ReachableButUnauthorized
        } else {
            ProbeOutcome::Unreachable
        },
        _ => ProbeOutcome::Unreachable,
    }
}

/// What a probe's reply says of the candidate.
pub fn probe_outcome(reply: ProbeReply) -> (r: ProbeOutcome)
    ensures
        r == outcome_of(reply),
        r == (match reply {
            ProbeReply::Status(code) => if code == 200 {
                ProbeOutcome::Authorized
            } else if code == 401 || code == 403 {
                ProbeOutcome::ReachableButUnauthorized
            } else {
                ProbeOutcome::Unreachable
            },
            _ => ProbeOutcome::Unreachable,
        }),
{
    match reply {
        ProbeReply::Status(code) => if code == 200 {
            ProbeOutcome::Authorized
        } else if code == 401 || code == 403 {
            ProbeOutcome::ReachableButUnauthorized
        } else {
            ProbeOutcome::Unreachable
        },
        ProbeReply::ClientUnavailable => ProbeOutcome::Unreachable,
        ProbeReply::TransportError => ProbeOutcome::Unreachable,
        ProbeReply::TimedOut => ProbeOutcome::Unreachable,
    }
}

/// The candidates of a rotation are exactly the pool's indices.
pub proof fn law_rotation_covers_pool(view: FailoverView, i: int)
    requires
        view.valid(),
        0 <= i < view.health.len(),
    ensures
        exists|k: int| 0 <= k < view.health.len() && #[trigger] view.candidate(k) == i,
        forall|k: int| 0 <= k ==> 0 <= #[trigger] view.candidate(k) < view.health.len(),
{
    let n = view.health.len() as int;
    let start = view.start();
    assert(0 <= start < n) by {
        if view.active is Some {
            vstd::arithmetic::div_mod::lemma_mod_bound(view.active->0 + 1, n);
        }
    }
    assert forall|k: int| 0 <= k implies 0 <= #[trigger] view.candidate(k) < view.health.len() by {
        vstd::arithmetic::div_mod::lemma_mod_bound(start + k, n);
    }
    let k = if i >= start {
        i - start
    } else {
        i - start + n
    };
    if i >= start {
        vstd::arithmetic::div_mod::lemma_small_mod(i as nat, n as nat);
    } else {
        vstd::arithmetic::div_mod::lemma_small_mod(i as nat, n as nat);
        vstd::arithmetic::div_mod::lemma_mod_sub_multiples_vanish(i + n, n);
    }
    assert(view.candidate(k) == i);
}

proof fn lemma_healthy_from(view: FailoverView, k: int, now: Moment)
    requires
        view.valid(),
        0 <= k,
    ensures
        match view.healthy_from(k, now) {
            Some(i) => exists|m: int|
                k <= m < view.health.len() && i == #[trigger] view.candidate(m)
                    && !view.health[i].cooling(now) && forall|j: int|
                    k <= j < m ==> view.health[#[trigger] view.candidate(j)].cooling(now),
            None => forall|m: int|
                k <= m < view.health.len() ==> view.health[#[trigger] view.candidate(m)].cooling(
                    now,
                ),
        },
    decreases view.health.len() - k,
{
    if k >= view.health.len() {
    } else if !view.health[view.candidate(k)].cooling(now) {
    } else {
        lemma_healthy_from(view, k + 1, now);
        match view.healthy_from(k + 1, now) {
            Some(i) => {
                let m = choose|m: int|
                    k + 1 <= m < view.health.len() && i == #[trigger] view.candidate(m)
                        && !view.health[i].cooling(now) && forall|j: int|
                        k + 1 <= j < m ==> view.health[#[trigger] view.candidate(j)].cooling(now);
                assert(forall|j: int|
                    k <= j < m ==> view.health[#[trigger] view.candidate(j)].cooling(now));
            },
            None => {},
        }
    }
}

/// A hop goes to a pool endpoint that is not cooling, and every candidate the
/// rotation meets before it is.
pub proof fn law_hop_is_first_healthy(view: FailoverView, now: Moment)
    requires
        view.valid(),
        view.next_healthy(now) is Some,
    ensures
        ({
            let i = view.next_healthy(now)->0;
            &&& 0 <= i < view.health.len()
            &&& !view.health[i].cooling(now)
            &&& exists|m: int|
                0 <= m < view.health.len() && i == #[trigger] view.candidate(m) && forall|j: int|
                    0 <= j < m ==> view.health[#[trigger] view.candidate(j)].cooling(now)
        }),
{
    lemma_healthy_from(view, 0, now);
    assert(view.health.len() > 0);
    law_rotation_covers_pool(view, 0);
}

/// There is nowhere to hop exactly when every endpoint is cooling.
pub proof fn law_exhausted_iff_all_cooling(view: FailoverView, now: Moment)
    requires
        view.valid(),
    ensures
        view.next_healthy(now) is None <==> forall|i: int|
            0 <= i < view.health.len() ==> #[trigger] view.health[i].cooling(now),
{
    lemma_healthy_from(view, 0, now);
    if view.next_healthy(now) is None {
        assert forall|i: int| 0 <= i < view.health.len() implies #[trigger] view.health[i].cooling(
            now,
        ) by {
            law_rotation_covers_pool(view, i);
        }
    } else {
        law_hop_is_first_healthy(view, now);
    }
}

/// With nothing cooling, a hop goes to the first alternate from the primary,
/// and otherwise to the endpoint right after the active one, wrapping round.
pub proof fn law_healthy_pool_rotates(view: FailoverView, now: Moment)
    requires
        view.valid(),
        view.health.len() > 0,
        forall|i: int| 0 <= i < view.health.len() ==> !(#[trigger] view.health[i].cooling(now)),
    ensures
        view.next_healthy(now) == Some(
            match view.active {
                Some(i) => if i + 1 == view.health.len() {
                    0
                } else {
                    i + 1
                },
                None => 0,
            },
        ),
{
    let n = view.health.len() as int;
    law_rotation_covers_pool(view, 0);
    assert(view.candidate(0) == view.start()) by {
        if view.active is Some {
            vstd::arithmetic::div_mod::lemma_mod_twice(view.active->0 + 1, n);
        } else {
            vstd::arithmetic::div_mod::lemma_small_mod(0, n as nat);
        }
    }
    if view.active is Some {
        let i = view.active->0;
        if i + 1 == n {
            vstd::arithmetic::div_mod::lemma_mod_self_0(n);
        } else {
            vstd::arithmetic::div_mod::lemma_small_mod((i + 1) as nat, n as nat);
        }
    }
}

/// An endpoint that failed is not hopped to before its cooldown is over, and
/// is no longer cooling from then on.
pub proof fn law_failed_endpoint_sits_out(
    view: FailoverView,
    rate_limited: bool,
    at: Moment,
    later: Moment,
)
    requires
        view.valid(),
        view.active is Some,
    ensures
        ({
            let i = view.active->0;
            let after = view.failed(rate_limited, at);
            let until = after.health[i].cooldown_until->0.until;
            &&& after.health[i].cooldown_until is Some
            &&& later.nanos < until.nanos ==> after.next_healthy(later) != Some(i)
            &&& later.nanos >= until.nanos ==> !after.health[i].cooling(later)
        }),
{
    let after = view.failed(rate_limited, at);
    if after.next_healthy(later) is Some {
        law_hop_is_first_healthy(after, later);
    }
}

/// A failure at a moment that a clock can read cools the endpoint for exactly as
/// long as its streak calls for, never forever.
pub proof fn law_read_failure_cools_exactly(view: FailoverView, rate_limited: bool, now: Moment)
    requires
        view.valid(),
        view.active is Some,
        now.on_clock(),
    ensures
        ({
            let set = view.failed(rate_limited, now).health[view.active->0].cooldown_until;
            &&& set is Some
            &&& set->0.until.nanos - now.nanos == set->0.secs * NANOS_PER_SEC
            &&& set->0.until.nanos - now.nanos <= MAX_COOLDOWN_SECS * NANOS_PER_SEC
        }),
{
    let i = view.active->0;
    let kind = if rate_limited {
        EndpointErrorKind::RateLimited
    } else {
        EndpointErrorKind::ServerOrTransport
    };
    law_cooldown_bounds(view.health[i], kind, now);
    let secs = cooldown_secs(kind, view.health[i].reached_secs());
    assert(secs * NANOS_PER_SEC <= 600 * NANOS_PER_SEC) by (nonlinear_arith)
        requires
            secs <= 600,
            NANOS_PER_SEC >= 0,
    ;
}

/// A failure changes the record of the endpoint in use and no other, and
/// neither a failure nor a success moves the request off it.
pub proof fn law_records_are_separate(
    view: FailoverView,
    rate_limited: bool,
    now: Moment,
    other: int,
)
    requires
        view.valid(),
        0 <= other < view.health.len(),
        view.active != Some(other),
    ensures
        view.failed(rate_limited, now).health[other] == view.health[other],
        view.succeeded().health[other] == view.health[other],
        view.failed(rate_limited, now).active == view.active,
        view.succeeded().active == view.active,
{
}

/// A success ends the cooldown of the endpoint in use, and the next failure
/// counts as the first of a new streak.
pub proof fn law_success_resets(view: FailoverView, rate_limited: bool, now: Moment)
    requires
        view.valid(),
        view.active is Some,
    ensures
        ({
            let i = view.active->0;
            let after = view.succeeded();
            &&& after.health[i].consecutive_failures == 0
            &&& after.health[i].last_error_kind is None
            &&& !after.health[i].cooling(now)
            &&& !after.over_threshold()
            &&& after.failed(rate_limited, now).health[i].consecutive_failures == 1
            &&& after.failed(rate_limited, now).health[i].reached_secs() == Some(
                base_cooldown(
                    if rate_limited {
                        EndpointErrorKind::RateLimited
                    } else {
                        EndpointErrorKind::ServerOrTransport
                    },
                ),
            )
        }),
{
}

/// One failure after a success is tried again in place; the second in a row
/// calls for a hop.
pub proof fn law_second_failure_hops(
    view: FailoverView,
    first_limited: bool,
    second_limited: bool,
    first: Moment,
    second: Moment,
)
    requires
        view.valid(),
        view.active is Some,
    ensures
        !view.succeeded().failed(first_limited, first).over_threshold(),
        view.failed(first_limited, first).failed(second_limited, second).over_threshold(),
{
}

proof fn lemma_candidate_is(view: FailoverView, k: int)
    requires
        view.valid(),
        0 <= k < view.health.len(),
    ensures
        0 <= view.start() < view.health.len(),
        view.start() == (match view.active {
            Some(i) => if i + 1 == view.health.len() {
                0
            } else {
                i + 1
            },
            None => 0,
        }),
        view.candidate(k) == (if view.start() + k < view.health.len() {
            view.start() + k
        } else {
            view.start() + k - view.health.len()
        }),
{
    let n = view.health.len() as int;
    if view.active is Some {
        let i = view.active->0;
        if i + 1 == n {
            vstd::arithmetic::div_mod::lemma_mod_self_0(n);
        } else {
            vstd::arithmetic::div_mod::lemma_small_mod((i + 1) as nat, n as nat);
        }
    }
    let at = view.start() + k;
    if at < n {
        vstd::arithmetic::div_mod::lemma_small_mod(at as nat, n as nat);
    } else {
        vstd::arithmetic::div_mod::lemma_small_mod((at - n) as nat, n as nat);
        vstd::arithmetic::div_mod::lemma_mod_sub_multiples_vanish(at, n);
    }
}

/// The rotation begins right after the endpoint in use, at the first alternate
/// where that is the primary, and goes up the pool one by one, from its end back
/// to its beginning.
pub proof fn law_rotation_goes_up_by_one(view: FailoverView, k: int)
    requires
        view.valid(),
        0 <= k,
        k + 1 < view.health.len(),
    ensures
        view.candidate(0) == (match view.active {
            Some(i) => if i + 1 == view.health.len() {
                0
            } else {
                i + 1
            },
            None => 0,
        }),
        view.candidate(k + 1) == (if view.candidate(k) + 1 == view.health.len() {
            0
        } else {
            view.candidate(k) + 1
        }),
{
    lemma_candidate_is(view, 0);
    lemma_candidate_is(view, k);
    lemma_candidate_is(view, k + 1);
}

/// A hop goes to an endpoint whose cooldown, where it has one, is over, and all
/// that lie between the endpoint in use and that one, counting up and round the
/// end of the pool, are still cooling.
pub proof fn law_hop_passes_over_cooling_endpoints_only(view: FailoverView, now: Moment, j: int)
    requires
        view.valid(),
        view.next_healthy(now) is Some,
        0 <= j < view.health.len(),
    ensures
        ({
            let n = view.health.len();
            let i = view.next_healthy(now)->0;
            let passed = match view.active {
                None => j < i,
                Some(a) => if a < i {
                    a < j < i
                } else {
                    a < j || j < i
                },
            };
            &&& 0 <= i < n
            &&& view.health[i].cooldown_until matches Some(cooldown) ==> cooldown.until.nanos
                <= now.nanos
            &&& passed ==> (view.health[j].cooldown_until matches Some(cooldown)
                && now.nanos < cooldown.until.nanos)
        }),
{
    lemma_healthy_from(view, 0, now);
    let n = view.health.len() as int;
    let i = view.next_healthy(now)->0;
    let m = choose|m: int|
        0 <= m < n && i == #[trigger] view.candidate(m) && !view.health[i].cooling(now)
            && forall|k: int| 0 <= k < m ==> view.health[#[trigger] view.candidate(k)].cooling(now);
    let start = view.start();
    lemma_candidate_is(view, m);
    let d = if j >= start {
        j - start
    } else {
        j - start + n
    };
    lemma_candidate_is(view, d);
    assert(view.candidate(d) == j);
    if d < m {
        assert(view.health[view.candidate(d)].cooling(now));
    }
}

/// There is nowhere to hop exactly when every endpoint has a cooldown that is
/// not over, and some endpoint is cooling exactly when one has such a cooldown.
pub proof fn law_cooldowns_decide_where_to_hop(view: FailoverView, now: Moment)
    requires
        view.valid(),
    ensures
        view.next_healthy(now) is None <==> forall|i: int|
            0 <= i < view.health.len() ==> ((#[trigger] view.health[i]).cooldown_until matches Some(
                cooldown,
            ) && now.nanos < cooldown.until.nanos),
        view.some_cooling(now) <==> exists|i: int|
            0 <= i < view.health.len() && ((#[trigger] view.health[i]).cooldown_until matches Some(
                cooldown,
            ) && now.nanos < cooldown.until.nanos),
{
    law_exhausted_iff_all_cooling(view, now);
    assert forall|i: int| 0 <= i < view.health.len() implies (
    #[trigger] view.health[i].cooling(now) <==> (view.health[i].cooldown_until matches Some(cooldown)
        && now.nanos < cooldown.until.nanos)) by {}
    if view.next_healthy(now) is None {
        assert forall|i: int| 0 <= i < view.health.len() implies ((
        #[trigger] view.health[i]).cooldown_until matches Some(cooldown) && now.nanos
            < cooldown.until.nanos) by {
            assert(view.health[i].cooling(now));
        }
    }
}

/// A failure is counted against the endpoint in use and cools it from that
/// moment: for a minute or half a minute where it is the first in a row, else for
/// twice as long as the one before, ten minutes at most. The primary keeps no
/// record.
pub proof fn law_failure_is_recorded(view: FailoverView, rate_limited: bool, now: Moment)
    requires
        view.valid(),
    ensures
        ({
            let after = view.failed(rate_limited, now);
            match view.active {
                None => after == view,
                Some(i) => {
                    let was = view.health[i];
                    let is = after.health[i];
                    let secs = match was.cooldown_until {
                        None => if rate_limited {
                            60int
                        } else {
                            30int
                        },
                        Some(cooldown) => if cooldown.secs > 300 {
                            600int
                        } else {
                            cooldown.secs + cooldown.secs
                        },
                    };
                    &&& after.active == Some(i)
                    &&& after.health.len() == view.health.len()
                    &&& is.consecutive_failures == was.consecutive_failures + 1
                        || is.consecutive_failures == was.consecutive_failures == u32::MAX
                    &&& rate_limited ==> is.last_error_kind == Some(EndpointErrorKind::RateLimited)
                    &&& !rate_limited ==> is.last_error_kind == Some(
                        EndpointErrorKind::ServerOrTransport,
                    )
                    &&& is.successes == was.successes
                    &&& is.cooldown_until is Some
                    &&& is.cooldown_until->0.secs == secs
                    &&& is.cooldown_until->0.until.nanos == (if now.nanos + secs * 1_000_000_000
                        <= u128::MAX {
                        now.nanos + secs * 1_000_000_000
                    } else {
                        u128::MAX as int
                    })
                },
            }
        }),
{
}

/// A success is counted for the endpoint in use and ends its streak of failures.
/// The primary keeps no record.
pub proof fn law_success_is_recorded(view: FailoverView)
    requires
        view.valid(),
    ensures
        ({
            let after = view.succeeded();
            match view.active {
                None => after == view,
                Some(i) => {
                    let was = view.health[i];
                    let is = after.health[i];
                    &&& after.active == Some(i)
                    &&& after.health.len() == view.health.len()
                    &&& is.successes == was.successes + 1 || is.successes == was.successes
                        == u32::MAX
                    &&& is.consecutive_failures == 0
                    &&& is.last_error_kind is None
                    &&& is.cooldown_until is None
                },
            }
        }),
{
}

/// Moving to another endpoint changes which one is in use and nothing else, and a
/// hop is called for on the primary, or from the second failure in a row on.
pub proof fn law_commit_moves_and_forgets_nothing(view: FailoverView, i: int)
    requires
        view.valid(),
        0 <= i < view.health.len(),
    ensures
        view.committed(i).valid(),
        view.committed(i).active == Some(i),
        view.committed(i).health == view.health,
        view.committed(i).over_threshold() <==> view.health[i].consecutive_failures >= 2,
        view.active is None ==> view.over_threshold(),
{
}

/// A round of commits from the primary visits a pool in which nothing cools from
/// its first endpoint to its last, and then begins again.
pub proof fn law_commits_walk_a_healthy_pool(view: FailoverView, now: Moment, i: int)
    requires
        view.valid(),
        0 <= i < view.health.len(),
        forall|k: int| 0 <= k < view.health.len() ==> !(#[trigger] view.health[k].cooling(now)),
    ensures
        i + 1 < view.health.len() ==> view.committed(i).next_healthy(now) == Some(i + 1),
        view.committed(view.health.len() - 1).next_healthy(now) == Some(0int),
{
    law_healthy_pool_rotates(view.committed(i), now);
    law_healthy_pool_rotates(view.committed(view.health.len() - 1), now);
}

proof fn lemma_slashes_go(head: Seq<char>, slashes: Seq<char>)
    requires
        head.len() == 0 || head.last() != '/',
        forall|i: int| 0 <= i < slashes.len() ==> slashes[i] == '/',
    ensures
        without_trailing_slashes(head + slashes) == head,
    decreases slashes.len(),
{
    if slashes.len() > 0 {
        assert((head + slashes).last() == slashes[slashes.len() - 1]);
        assert((head + slashes).drop_last() =~= head + slashes.drop_last());
        lemma_slashes_go(head, slashes.drop_last());
    } else {
        assert(head + slashes =~= head);
    }
}

/// Slashes between the end of a base URL's path and its query give way to
/// `/models`; what stands before and behind them stays. A question mark behind a
/// number sign belongs to the fragment and starts no query.
pub proof fn law_models_url_replaces_trailing_slashes(
    head: Seq<char>,
    slashes: Seq<char>,
    query: Seq<char>,
)
    requires
        head.len() == 0 || head.last() != '/',
        forall|i: int| 0 <= i < slashes.len() ==> slashes[i] == '/',
        query.len() > 0 ==> query[0] == '?' && !head.contains('?') && !head.contains('#'),
        query.len() == 0 ==> forall|i: int|
            0 <= i < head.len() && #[trigger] head[i] == '?' ==> head.take(i).contains('#'),
    ensures
        models_of(head + slashes + query) == head + "/models"@ + query,
{
    let url = head + slashes + query;
    let path = head + slashes;
    let n = path.len() as int;
    let mark = first_mark(url, 0);
    lemma_first_mark(url, 0);
    if query.len() > 0 {
        assert forall|j: int| 0 <= j < n implies url[j] != '?' && url[j] != '#' by {
            if j < head.len() {
                assert(url[j] == head[j]);
                assert(head.contains(head[j]));
            } else {
                assert(url[j] == slashes[j - head.len()]);
            }
        }
        assert(url[n] == query[0]);
        lemma_first_mark_is(url, 0, n);
    } else {
        assert(url =~= path);
        if mark < url.len() && url[mark] == '?' {
            if mark < head.len() {
                assert(url[mark] == head[mark]);
                assert(head.take(mark).contains('#'));
                let k = choose|k: int| 0 <= k < mark && head.take(mark)[k] == '#';
                assert(url[k] == head[k] == '#');
                assert(false);
            } else {
                assert(url[mark] == slashes[mark - head.len()]);
                assert(false);
            }
        }
    }
    assert(query_start(url) == n);
    assert(url.take(n) =~= path);
    assert(url.skip(n) =~= query);
    lemma_slashes_go(head, slashes);
}

/// Probing is off exactly where the setting is a zero, or spells `false` in any
/// mix of upper and lower case.
pub proof fn law_probing_is_on_unless_switched_off(setting: Option<Seq<char>>)
    ensures
        setting is None ==> probing_on(setting),
        setting matches Some(v) ==> (probing_on(setting) <==> !(v == seq!['0'] || (v.len() == 5 && (
        v[0] == 'f' || v[0] == 'F') && (v[1] == 'a' || v[1] == 'A') && (v[2] == 'l' || v[2] == 'L')
            && (v[3] == 's' || v[3] == 'S') && (v[4] == 'e' || v[4] == 'E')))),
{
    reveal_strlit("0");
    reveal_strlit("false");
    assert("0"@ =~= seq!['0']);
    let f = "false"@;
    assert(text::ascii_lower(f) =~= f);
    if setting is Some {
        let v = setting->0;
        let low = text::ascii_lower(v);
        if low == f {
            assert(low[0] == f[0] && low[1] == f[1] && low[2] == f[2] && low[3] == f[3] && low[4]
                == f[4]);
        }
        if v.len() == 5 && (v[0] == 'f' || v[0] == 'F') && (v[1] == 'a' || v[1] == 'A') && (v[2]
            == 'l' || v[2] == 'L') && (v[3] == 's' || v[3] == 'S') && (v[4] == 'e' || v[4] == 'E') {
            assert(low =~= f);
        }
    }
}

/// A probe asks below the endpoint's own path, and presents its key where it has
/// one: as a bearer token or in the key header, whichever the endpoint takes.
pub proof fn law_probe_presents_the_key(request: ProbeRequest, endpoint: FailoverEndpoint)
    requires
        request.probes(endpoint),
    ensures
        request.timeout_ms == 1500,
        request.auth is Anonymous <==> endpoint.api_key is None,
        request.auth is Bearer <==> endpoint.api_key is Some && endpoint.auth_scheme
            == AuthScheme::Bearer,
        request.auth is Header <==> endpoint.api_key is Some && endpoint.auth_scheme
            == AuthScheme::XApiKey,
        request.auth matches ProbeAuth::Bearer(key) ==> key@ == endpoint.api_key->0@,
        request.auth matches ProbeAuth::Header { name, value } ==> value@ == endpoint.api_key->0@
            && name@ == "x-api-key"@,
        endpoint.base_url@.len() > 0 && !endpoint.base_url@.contains('?')
            && !endpoint.base_url@.contains('#') && endpoint.base_url@.last() != '/'
            ==> request.url@ == endpoint.base_url@ + "/models"@,
{
    let base = endpoint.base_url@;
    if base.len() > 0 && !base.contains('?') && !base.contains('#') && base.last() != '/' {
        let none = Seq::<char>::empty();
        assert(base + none + none =~= base);
        assert forall|i: int| 0 <= i < base.len() && #[trigger] base[i] == '?' implies base.take(
            i,
        ).contains('#') by {
            assert(base.contains(base[i]));
        }
        law_models_url_replaces_trailing_slashes(base, none, none);
        assert(base + "/models"@ + none =~= base + "/models"@);
    }
}

/// A pool that was not used yet has no failure, no cooldown and no success on
/// record.
pub proof fn law_new_record_is_blank()
    ensures
        EndpointHealth::fresh().consecutive_failures == 0,
        EndpointHealth::fresh().last_error_kind is None,
        EndpointHealth::fresh().cooldown_until is None,
        EndpointHealth::fresh().successes == 0,
{
}

/// An index counts from zero on both sides.
pub proof fn law_index_view_is_the_index(i: usize)
    ensures
        index_view(Some(i)) == Some(i as int),
        index_view(None) is None,
{
}

/// A candidate is authorized by an answer of success and by nothing else. It stays
/// in reserve where the answer is that the key may not list, and is given up where
/// there is no answer, or any other.
pub proof fn law_only_success_authorizes(reply: ProbeReply)
    ensures
        outcome_of(reply) == ProbeOutcome::Authorized <==> reply == ProbeReply::Status(200),
        outcome_of(reply) == ProbeOutcome::ReachableButUnauthorized <==> reply
            == ProbeReply::Status(401) || reply == ProbeReply::Status(403),
        outcome_of(reply) == ProbeOutcome::Unreachable <==> !(reply is Status) || (
        reply->Status_0 != 200 && reply->Status_0 != 401 && reply->Status_0 != 403),
{
}

} // verus!
