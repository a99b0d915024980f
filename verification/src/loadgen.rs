//! The load generator's decisions and bookkeeping: what each answer of the
//! server counts as, which event the next session targets, when a held seat
//! gets paid, and the running statistics that it reports.

use vstd::prelude::*;
use rand::Rng;
use rand::seq::SliceRandom;

verus! {

/// The four events that the seed data creates, targeted when no event is named.
pub open spec fn seeded_events() -> Seq<u128> {
    seq![
        0xa000_0000_0000_0000_0000_0000_0000_0001u128,
        0xa000_0000_0000_0000_0000_0000_0000_0002u128,
        0xa000_0000_0000_0000_0000_0000_0000_0003u128,
        0xa000_0000_0000_0000_0000_0000_0000_0004u128,
    ]
}

/// The events to target: the named ones, or the seeded ones when none is
/// named. Either way there is at least one.
pub fn resolve_events(named: &Vec<u128>) -> (events: Vec<u128>)
    ensures
        events@ == if named@.len() == 0 { seeded_events() } else { named@ },
        events@.len() > 0,
{
    if named.len() == 0 {
        let mut events: Vec<u128> = Vec::new();
        events.push(0xa000_0000_0000_0000_0000_0000_0000_0001u128);
        events.push(0xa000_0000_0000_0000_0000_0000_0000_0002u128);
        events.push(0xa000_0000_0000_0000_0000_0000_0000_0003u128);
        events.push(0xa000_0000_0000_0000_0000_0000_0000_0004u128);
        assert(events@ =~= seeded_events());
        events
    } else {
        let mut events: Vec<u128> = Vec::new();
        let mut i: usize = 0;
        while i < named.len()
            invariant
                i <= named@.len(),
                events@ =~= named@.take(i as int),
            decreases named@.len() - i,
        {
            events.push(named[i]);
            i = i + 1;
            assert(events@ =~= named@.take(i as int));
        }
        assert(named@.take(named@.len() as int) =~= named@);
        events
    }
}

/// One event picked at random with `rand::seq::SliceRandom::choose` on the
/// thread's generator. The contract claims what the crate documents: no
/// event for an empty list, otherwise one of the list's events. Which one is
/// left to chance.
#[verifier::external_body]
fn choose_event(events: &Vec<u128>) -> (e: Option<u128>)
    ensures
        e is Some <==> events@.len() > 0,
        e matches Some(x) ==> events@.contains(x),
{
    events.choose(&mut rand::thread_rng()).copied()
}

/// A number drawn from `0..=max` with `rand::Rng::gen_range` on the
/// thread's generator. The contract claims that it lies in that range; the
/// draw itself is left to chance.
#[verifier::external_body]
fn random_at_most(max: u64) -> (r: u64)
    ensures
        r <= max,
{
    rand::thread_rng().gen_range(0..=max)
}

/// The user of a new session: a fresh random id, so that every session
/// books as a different user.
pub fn session_user() -> (user_id: u128)
    ensures
        crate::ids::is_random_uuid(user_id),
{
    crate::ids::random_uuid()
}

/// What the dispatcher does at a tick.
#[derive(Clone, Copy, Debug, PartialEq, Eq, Structural)]
pub enum Dispatch {
    /// The run is over.
    Stop,
    /// Every session slot is busy: the tick is dropped.
    SkipTick,
    /// Start a session against the event.
    Launch { event_id: u128 },
}

/// Decides a tick of the dispatcher: stop once the deadline has passed,
/// drop the tick when no session slot is free, otherwise start a session
/// against one of the events, picked at random.
pub fn dispatch(before_deadline: bool, slot_free: bool, events: &Vec<u128>) -> (d: Dispatch)
    requires
        events@.len() > 0,
    ensures
        !before_deadline ==> d == Dispatch::Stop,
        before_deadline && !slot_free ==> d == Dispatch::SkipTick,
        before_deadline && slot_free ==> (d matches Dispatch::Launch { event_id }
            && events@.contains(event_id)),
{
    if !before_deadline {
        Dispatch::Stop
    } else if !slot_free {
        Dispatch::SkipTick
    } else {
        match choose_event(events) {
            Some(event_id) => Dispatch::Launch { event_id },
            None => Dispatch::Stop,
        }
    }
}

/// What a session does after its seat was held.
#[derive(Clone, Copy, Debug, PartialEq, Eq, Structural)]
pub enum PaymentPlan {
    /// Pay after waiting this many milliseconds.
    Pay { delay_ms: u64 },
    /// Never pay; the hold runs out.
    Abandon,
}

/// Plans the payment of a held seat. A session that pays waits a random
/// delay of at most `max_delay_ms` (none when that bound is zero).
pub fn plan_payment(will_pay: bool, max_delay_ms: u64) -> (p: PaymentPlan)
    ensures
        !will_pay ==> p == PaymentPlan::Abandon,
        will_pay ==> (p matches PaymentPlan::Pay { delay_ms } && delay_ms <= max_delay_ms),
{
    if !will_pay {
        PaymentPlan::Abandon
    } else if max_delay_ms > 0 {
        PaymentPlan::Pay { delay_ms: random_at_most(max_delay_ms) }
    } else {
        PaymentPlan::Pay { delay_ms: 0 }
    }
}

/// What one request of a session came to.
#[derive(Clone, Copy, Debug, PartialEq, Eq, Structural)]
pub enum Outcome {
    ReserveHeld { latency_ms: u64 },
    ReserveWaitlisted { latency_ms: u64 },
    ReserveError { latency_ms: u64 },
    ReserveNetworkError,
    Abandoned,
    PayOk { latency_ms: u64 },
    PayExpired { latency_ms: u64 },
    PayConflict { latency_ms: u64 },
    PayError { latency_ms: u64 },
    PayNetworkError,
}

impl Outcome {
    /// The latency of the request, where the server answered it.
    pub open spec fn latency(self) -> Option<u64> {
        match self {
            Outcome::ReserveHeld { latency_ms } => Some(latency_ms),
            Outcome::ReserveWaitlisted { latency_ms } => Some(latency_ms),
            Outcome::ReserveError { latency_ms } => Some(latency_ms),
            Outcome::PayOk { latency_ms } => Some(latency_ms),
            Outcome::PayExpired { latency_ms } => Some(latency_ms),
            Outcome::PayConflict { latency_ms } => Some(latency_ms),
            Outcome::PayError { latency_ms } => Some(latency_ms),
            Outcome::ReserveNetworkError => None,
            Outcome::Abandoned => None,
            Outcome::PayNetworkError => None,
        }
    }

    /// The latency of the request; none where no answer came or no request
    /// was made.
    pub fn latency_ms(&self) -> (l: Option<u64>)
        ensures
            l == self.latency(),
    {
        match self {
            Outcome::ReserveHeld { latency_ms }
            | Outcome::ReserveWaitlisted { latency_ms }
            | Outcome::ReserveError { latency_ms }
            | Outcome::PayOk { latency_ms }
            | Outcome::PayExpired { latency_ms }
            | Outcome::PayConflict { latency_ms }
            | Outcome::PayError { latency_ms } => Some(*latency_ms),
            Outcome::ReserveNetworkError | Outcome::Abandoned | Outcome::PayNetworkError => None,
        }
    }
}

/// What a reservation request came to: `status` is the server's answer
/// (none on a network error) and `reservation` the reservation read from a
/// 201 body (none where it could not be read). 201 with a readable body is a
/// held seat, whose reservation is then to be paid; 201 without one, or any
/// status other than 201 and 202, is an error; 202 is a place in the queue.
pub open spec fn reserve_outcome_of(
    status: Option<u16>,
    reservation: Option<u128>,
    latency_ms: u64,
) -> (Outcome, Option<u128>) {
    match status {
        None => (Outcome::ReserveNetworkError, None),
        Some(s) => if s == 201 {
            match reservation {
                Some(id) => (Outcome::ReserveHeld { latency_ms }, Some(id)),
                None => (Outcome::ReserveError { latency_ms }, None),
            }
        } else if s == 202 {
            (Outcome::ReserveWaitlisted { latency_ms }, None)
        } else {
            (Outcome::ReserveError { latency_ms }, None)
        },
    }
}

/// How a reservation's answer is counted, over every status: no answer is a
/// network error; a place in the queue exactly for 202; a held seat exactly
/// for 201 with a readable reservation, which is then the one to pay; every
/// other answer (201 without a readable body, and every status but 201 and
/// 202, such as 404 or 500) is an error with nothing to pay. The latency is
/// kept as measured.
pub proof fn lemma_reserve_classification(status: Option<u16>, reservation: Option<u128>, latency_ms: u64)
    ensures
        ({
            let (o, pay) = reserve_outcome_of(status, reservation, latency_ms);
            &&& (o is ReserveNetworkError) == (status is None)
            &&& (o is ReserveWaitlisted) == (status == Some(202u16))
            &&& (o is ReserveHeld) == (status == Some(201u16) && reservation is Some)
            &&& (o is ReserveError) == (status is Some && status != Some(202u16) && !(status
                == Some(201u16) && reservation is Some))
            &&& pay == if o is ReserveHeld { reservation } else { None }
            &&& status is Some ==> o.latency() == Some(latency_ms)
            &&& (status matches Some(s) && s != 201 && s != 202) ==> (o == (Outcome::ReserveError {
                latency_ms,
            }) && pay is None)
        }),
{
}

/// Whether the body of a reservation's answer is read: only a 201 carries a
/// reservation.
pub fn reservation_body_expected(status: u16) -> (b: bool)
    ensures
        b == (status == 201),
{
    status == 201
}

/// Classifies the answer to a reservation, and gives the reservation to pay.
pub fn reserve_outcome(status: Option<u16>, reservation: Option<u128>, latency_ms: u64) -> (r: (
    Outcome,
    Option<u128>,
))
    ensures
        r == reserve_outcome_of(status, reservation, latency_ms),
{
    match status {
        None => (Outcome::ReserveNetworkError, None),
        Some(s) => if s == 201 {
            match reservation {
                Some(id) => (Outcome::ReserveHeld { latency_ms }, Some(id)),
                None => (Outcome::ReserveError { latency_ms }, None),
            }
        } else if s == 202 {
            (Outcome::ReserveWaitlisted { latency_ms }, None)
        } else {
            (Outcome::ReserveError { latency_ms }, None)
        },
    }
}

/// What a payment came to: 200 is paid, 403 an expired hold, 409 a conflict
/// (the seat is not held by the payer), any other status an error, and no
/// status a network error.
pub open spec fn pay_outcome_of(status: Option<u16>, latency_ms: u64) -> Outcome {
    match status {
        None => Outcome::PayNetworkError,
        Some(s) => if s == 200 {
            Outcome::PayOk { latency_ms }
        } else if s == 403 {
            Outcome::PayExpired { latency_ms }
        } else if s == 409 {
            Outcome::PayConflict { latency_ms }
        } else {
            Outcome::PayError { latency_ms }
        },
    }
}

/// Classifies the answer to a payment.
pub fn pay_outcome(status: Option<u16>, latency_ms: u64) -> (o: Outcome)
    ensures
        o == pay_outcome_of(status, latency_ms),
{
    match status {
        None => Outcome::PayNetworkError,
        Some(s) => if s == 200 {
            Outcome::PayOk { latency_ms }
        } else if s == 403 {
            Outcome::PayExpired { latency_ms }
        } else if s == 409 {
            Outcome::PayConflict { latency_ms }
        } else {
            Outcome::PayError { latency_ms }
        },
    }
}

/// The running statistics of a load run: how many requests came to each
/// outcome, and the smallest, largest and summed latency of the answered ones.
#[derive(Clone, Copy, Debug, PartialEq, Eq, Structural)]
pub struct Stats {
    pub reserve_held: u64,
    pub reserve_waitlisted: u64,
    pub reserve_error: u64,
    pub reserve_network_error: u64,
    pub abandoned: u64,
    pub pay_ok: u64,
    pub pay_expired: u64,
    pub pay_conflict: u64,
    pub pay_error: u64,
    pub pay_network_error: u64,
    pub latency_min_ms: Option<u64>,
    pub latency_max_ms: u64,
    pub latency_sum_ms: u128,
    pub latency_count: u64,
}

/// The statistics of a run before its first outcome.
pub open spec fn empty_stats() -> Stats {
    Stats {
        reserve_held: 0,
        reserve_waitlisted: 0,
        reserve_error: 0,
        reserve_network_error: 0,
        abandoned: 0,
        pay_ok: 0,
        pay_expired: 0,
        pay_conflict: 0,
        pay_error: 0,
        pay_network_error: 0,
        latency_min_ms: None,
        latency_max_ms: 0,
        latency_sum_ms: 0,
        latency_count: 0,
    }
}

impl Default for Stats {
    fn default() -> (s: Stats)
        ensures
            s == empty_stats(),
    {
        Stats {
            reserve_held: 0,
            reserve_waitlisted: 0,
            reserve_error: 0,
            reserve_network_error: 0,
            abandoned: 0,
            pay_ok: 0,
            pay_expired: 0,
            pay_conflict: 0,
            pay_error: 0,
            pay_network_error: 0,
            latency_min_ms: None,
            latency_max_ms: 0,
            latency_sum_ms: 0,
            latency_count: 0,
        }
    }
}

/// The statistics that do not contradict themselves: a smallest latency
/// exactly when some latency was observed; before any observation a sum and
/// a largest latency of zero; after, a smallest latency no larger than the
/// largest, and a sum between the count times the smallest and the count
/// times the largest latency.
pub open spec fn stats_consistent(s: Stats) -> bool {
    &&& (s.latency_count == 0 <==> s.latency_min_ms is None)
    &&& s.latency_count == 0 ==> s.latency_sum_ms == 0 && s.latency_max_ms == 0
    &&& s.latency_min_ms matches Some(m) ==> {
        &&& m <= s.latency_max_ms
        &&& s.latency_count * m <= s.latency_sum_ms
        &&& s.latency_sum_ms <= s.latency_count * s.latency_max_ms
    }
}

impl Stats {
    /// The counter that an outcome adds to.
    pub open spec fn counter(self, o: Outcome) -> u64 {
        match o {
            Outcome::ReserveHeld { .. } => self.reserve_held,
            Outcome::ReserveWaitlisted { .. } => self.reserve_waitlisted,
            Outcome::ReserveError { .. } => self.reserve_error,
            Outcome::ReserveNetworkError => self.reserve_network_error,
            Outcome::Abandoned => self.abandoned,
            Outcome::PayOk { .. } => self.pay_ok,
            Outcome::PayExpired { .. } => self.pay_expired,
            Outcome::PayConflict { .. } => self.pay_conflict,
            Outcome::PayError { .. } => self.pay_error,
            Outcome::PayNetworkError => self.pay_network_error,
        }
    }

    /// The statistics with one more outcome of the kind of `o` counted.
    pub open spec fn counted(self, o: Outcome) -> Stats {
        match o {
            Outcome::ReserveHeld { .. } => Stats { reserve_held: (self.reserve_held + 1) as u64, ..self },
            Outcome::ReserveWaitlisted { .. } => Stats {
                reserve_waitlisted: (self.reserve_waitlisted + 1) as u64,
                ..self
            },
            Outcome::ReserveError { .. } => Stats { reserve_error: (self.reserve_error + 1) as u64, ..self },
            Outcome::ReserveNetworkError => Stats {
                reserve_network_error: (self.reserve_network_error + 1) as u64,
                ..self
            },
            Outcome::Abandoned => Stats { abandoned: (self.abandoned + 1) as u64, ..self },
            Outcome::PayOk { .. } => Stats { pay_ok: (self.pay_ok + 1) as u64, ..self },
            Outcome::PayExpired { .. } => Stats { pay_expired: (self.pay_expired + 1) as u64, ..self },
            Outcome::PayConflict { .. } => Stats { pay_conflict: (self.pay_conflict + 1) as u64, ..self },
            Outcome::PayError { .. } => Stats { pay_error: (self.pay_error + 1) as u64, ..self },
            Outcome::PayNetworkError => Stats {
                pay_network_error: (self.pay_network_error + 1) as u64,
                ..self
            },
        }
    }

    /// The statistics with one more latency observed.
    pub open spec fn observed(self, ms: u64) -> Stats {
        Stats {
            latency_min_ms: Some(
                match self.latency_min_ms {
                    None => ms,
                    Some(m) => if m <= ms { m } else { ms },
                },
            ),
            latency_max_ms: if self.latency_max_ms >= ms { self.latency_max_ms } else { ms },
            latency_sum_ms: (self.latency_sum_ms + ms) as u128,
            latency_count: (self.latency_count + 1) as u64,
            ..self
        }
    }

    /// The statistics after recording an outcome: its latency observed if it
    /// has one, and its counter raised by one.
    pub open spec fn recorded(self, o: Outcome) -> Stats {
        match o.latency() {
            Some(ms) => self.observed(ms).counted(o),
            None => self.counted(o),
        }
    }

    /// Whether the latency figures can take one more observation.
    pub open spec fn can_observe(self, ms: u64) -> bool {
        &&& self.latency_count < u64::MAX
        &&& self.latency_sum_ms + ms <= u128::MAX
    }

    /// Whether an outcome can be recorded without a counter overflowing.
    pub open spec fn can_record(self, o: Outcome) -> bool {
        &&& self.counter(o) < u64::MAX
        &&& o.latency() matches Some(ms) ==> self.can_observe(ms)
    }

    /// Whether an outcome can be recorded without a counter overflowing.
    pub fn has_room_for(&self, o: &Outcome) -> (b: bool)
        ensures
            b == self.can_record(*o),
    {
        let counter = match o {
            Outcome::ReserveHeld { .. } => self.reserve_held,
            Outcome::ReserveWaitlisted { .. } => self.reserve_waitlisted,
            Outcome::ReserveError { .. } => self.reserve_error,
            Outcome::ReserveNetworkError => self.reserve_network_error,
            Outcome::Abandoned => self.abandoned,
            Outcome::PayOk { .. } => self.pay_ok,
            Outcome::PayExpired { .. } => self.pay_expired,
            Outcome::PayConflict { .. } => self.pay_conflict,
            Outcome::PayError { .. } => self.pay_error,
            Outcome::PayNetworkError => self.pay_network_error,
        };
        if counter == u64::MAX {
            return false;
        }
        match o.latency_ms() {
            Some(ms) => self.latency_count < u64::MAX && self.latency_sum_ms <= u128::MAX
                - ms as u128,
            None => true,
        }
    }

    /// Records an outcome: its latency, if it has one, and its counter.
    pub fn record(&mut self, outcome: Outcome)
        requires
            old(self).can_record(outcome),
        ensures
            *final(self) == old(self).recorded(outcome),
    {
        if let Some(latency_ms) = outcome.latency_ms() {
            self.observe_latency(latency_ms);
        }
        match outcome {
            Outcome::ReserveHeld { .. } => self.reserve_held = self.reserve_held + 1,
            Outcome::ReserveWaitlisted { .. } => self.reserve_waitlisted = self.reserve_waitlisted + 1,
            Outcome::ReserveError { .. } => self.reserve_error = self.reserve_error + 1,
            Outcome::ReserveNetworkError => self.reserve_network_error = self.reserve_network_error
                + 1,
            Outcome::Abandoned => self.abandoned = self.abandoned + 1,
            Outcome::PayOk { .. } => self.pay_ok = self.pay_ok + 1,
            Outcome::PayExpired { .. } => self.pay_expired = self.pay_expired + 1,
            Outcome::PayConflict { .. } => self.pay_conflict = self.pay_conflict + 1,
            Outcome::PayError { .. } => self.pay_error = self.pay_error + 1,
            Outcome::PayNetworkError => self.pay_network_error = self.pay_network_error + 1,
        }
    }

    /// Observes one latency: the smallest and largest so far, the sum and
    /// the count.
    pub fn observe_latency(&mut self, ms: u64)
        requires
            old(self).can_observe(ms),
        ensures
            *final(self) == old(self).observed(ms),
    {
        self.latency_min_ms = Some(
            match self.latency_min_ms {
                None => ms,
                Some(m) => if m <= ms { m } else { ms },
            },
        );
        if self.latency_max_ms < ms {
            self.latency_max_ms = ms;
        }
        self.latency_sum_ms = self.latency_sum_ms + ms as u128;
        self.latency_count = self.latency_count + 1;
    }

    /// The number of sessions: every session ends its reservation in one of
    /// the four reservation outcomes.
    pub open spec fn session_count(self) -> int {
        self.reserve_held + self.reserve_waitlisted + self.reserve_error
            + self.reserve_network_error
    }

    /// Whether the number of sessions fits in a counter.
    pub fn sessions_fit(&self) -> (b: bool)
        ensures
            b == (self.session_count() <= u64::MAX),
    {
        (self.reserve_held as u128) + (self.reserve_waitlisted as u128) + (self.reserve_error as u128)
            + (self.reserve_network_error as u128) <= u64::MAX as u128
    }

    /// The number of sessions so far.
    pub fn sessions(&self) -> (n: u64)
        requires
            self.session_count() <= u64::MAX,
        ensures
            n == self.session_count(),
    {
        self.reserve_held + self.reserve_waitlisted + self.reserve_error
            + self.reserve_network_error
    }

    /// The mean latency in whole milliseconds, rounded down; zero before the
    /// first latency.
    pub open spec fn average(self) -> u64 {
        if self.latency_count == 0 {
            0
        } else {
            (self.latency_sum_ms / (self.latency_count as u128)) as u64
        }
    }

    /// The mean latency in whole milliseconds.
    pub fn avg_latency_ms(&self) -> (a: u64)
        ensures
            a == self.average(),
    {
        if self.latency_count == 0 {
            0
        } else {
            (self.latency_sum_ms / self.latency_count as u128) as u64
        }
    }

    /// The figures of a progress or summary line, `elapsed_s` seconds into
    /// the run: the sessions, every counter, and the smallest (zero before
    /// the first), mean and largest latency.
    pub fn log(&self, elapsed_s: u64, kind: &str) -> (line: StatsLog)
        requires
            self.session_count() <= u64::MAX,
        ensures
            line.kind@ == kind@,
            line.elapsed_s == elapsed_s,
            line.sessions == self.session_count(),
            line.reserve_held == self.reserve_held,
            line.reserve_wait == self.reserve_waitlisted,
            line.reserve_err == self.reserve_error,
            line.reserve_net == self.reserve_network_error,
            line.abandoned == self.abandoned,
            line.pay_ok == self.pay_ok,
            line.pay_expired == self.pay_expired,
            line.pay_conflict == self.pay_conflict,
            line.pay_err == self.pay_error,
            line.pay_net == self.pay_network_error,
            line.latency_min_ms == match self.latency_min_ms {
                Some(m) => m,
                None => 0,
            },
            line.latency_avg_ms == self.average(),
            line.latency_max_ms == self.latency_max_ms,
    {
        StatsLog {
            kind: crate::text::owned(kind),
            elapsed_s,
            sessions: self.sessions(),
            reserve_held: self.reserve_held,
            reserve_wait: self.reserve_waitlisted,
            reserve_err: self.reserve_error,
            reserve_net: self.reserve_network_error,
            abandoned: self.abandoned,
            pay_ok: self.pay_ok,
            pay_expired: self.pay_expired,
            pay_conflict: self.pay_conflict,
            pay_err: self.pay_error,
            pay_net: self.pay_network_error,
            latency_min_ms: match self.latency_min_ms {
                Some(m) => m,
                None => 0,
            },
            latency_avg_ms: self.avg_latency_ms(),
            latency_max_ms: self.latency_max_ms,
        }
    }
}

/// The figures of one progress (`snapshot`) or final (`summary`) line of a
/// load run.
#[derive(Clone, Debug, PartialEq, Eq)]
pub struct StatsLog {
    pub kind: String,
    pub elapsed_s: u64,
    pub sessions: u64,
    pub reserve_held: u64,
    pub reserve_wait: u64,
    pub reserve_err: u64,
    pub reserve_net: u64,
    pub abandoned: u64,
    pub pay_ok: u64,
    pub pay_expired: u64,
    pub pay_conflict: u64,
    pub pay_err: u64,
    pub pay_net: u64,
    pub latency_min_ms: u64,
    pub latency_avg_ms: u64,
    pub latency_max_ms: u64,
}

/// Whether an outcome ends the reservation of a session.
pub open spec fn is_reservation_outcome(o: Outcome) -> bool {
    ||| o is ReserveHeld
    ||| o is ReserveWaitlisted
    ||| o is ReserveError
    ||| o is ReserveNetworkError
}

/// The number of outcomes counted, of every kind.
pub open spec fn total_count(s: Stats) -> int {
    s.reserve_held + s.reserve_waitlisted + s.reserve_error + s.reserve_network_error
        + s.abandoned + s.pay_ok + s.pay_expired + s.pay_conflict + s.pay_error
        + s.pay_network_error
}

/// A run starts with consistent statistics.
pub proof fn lemma_empty_stats_consistent()
    ensures
        stats_consistent(empty_stats()),
{
}

/// Recording an outcome counts it exactly once: the total grows by one,
/// the sessions grow by one exactly for a reservation outcome, and the
/// latency count grows by one exactly for an outcome with a latency.
pub proof fn lemma_record_counts_once(s: Stats, o: Outcome)
    requires
        s.can_record(o),
    ensures
        total_count(s.recorded(o)) == total_count(s) + 1,
        s.recorded(o).session_count() == s.session_count() + if is_reservation_outcome(o) {
            1int
        } else {
            0int
        },
        s.recorded(o).latency_count == s.latency_count + if o.latency() is Some {
            1int
        } else {
            0int
        },
{
}

/// Recording keeps the statistics consistent, whenever the latency count
/// has room for the outcome's latency; the outcome counters play no part.
pub proof fn lemma_record_keeps_consistent(s: Stats, o: Outcome)
    requires
        stats_consistent(s),
        o.latency() is Some ==> s.latency_count < u64::MAX,
    ensures
        stats_consistent(s.recorded(o)),
{
    if let Some(ms) = o.latency() {
        lemma_consistent_sum_has_room(s, ms);
        lemma_observe_keeps_consistent(s, ms);
    }
}

/// Observing a latency keeps the statistics consistent.
pub proof fn lemma_observe_keeps_consistent(s: Stats, ms: u64)
    requires
        stats_consistent(s),
        s.can_observe(ms),
    ensures
        stats_consistent(s.observed(ms)),
{
    let t = s.observed(ms);
    let c = s.latency_count as int;
    let sum = s.latency_sum_ms as int;
    let old_hi = s.latency_max_ms as int;
    let lo = t.latency_min_ms.unwrap() as int;
    let hi = t.latency_max_ms as int;
    let m2 = ms as int;
    assert(t.latency_count as int == c + 1);
    assert(t.latency_sum_ms as int == sum + m2);
    assert(lo <= m2 && m2 <= hi && old_hi <= hi);
    match s.latency_min_ms {
        None => {
            assert(c == 0 && sum == 0 && lo == m2);
            assert((c + 1) * lo == lo) by (nonlinear_arith)
                requires
                    c == 0,
            ;
            assert((c + 1) * hi == hi) by (nonlinear_arith)
                requires
                    c == 0,
            ;
        },
        Some(m) => {
            assert(lo <= m);
            assert(c * lo <= c * m) by (nonlinear_arith)
                requires
                    lo <= m,
                    0 <= c,
            ;
            assert(c * old_hi <= c * hi) by (nonlinear_arith)
                requires
                    old_hi <= hi,
                    0 <= c,
            ;
            assert((c + 1) * lo == c * lo + lo) by (nonlinear_arith);
            assert((c + 1) * hi == c * hi + hi) by (nonlinear_arith);
            assert(c * m <= sum);
            assert(sum <= c * old_hi);
        },
    }
    assert((c + 1) * lo <= sum + m2);
    assert(sum + m2 <= (c + 1) * hi);
}

/// The mean latency lies between the smallest and the largest latency.
pub proof fn lemma_average_between_extremes(s: Stats)
    requires
        stats_consistent(s),
        s.latency_count > 0,
    ensures
        s.latency_min_ms.unwrap() <= s.average() <= s.latency_max_ms,
{
    let c = s.latency_count as int;
    let sum = s.latency_sum_ms as int;
    let lo = s.latency_min_ms.unwrap() as int;
    let hi = s.latency_max_ms as int;
    assert(lo <= sum / c <= hi) by (nonlinear_arith)
        requires
            c > 0,
            c * lo <= sum,
            sum <= c * hi,
    ;
    assert(sum / c <= u64::MAX);
}


/// Consistent statistics leave room for one more latency whenever the count
/// does: the sum is at most the count times the largest latency, so with a
/// count below `u64::MAX` the sum plus any `u64` latency fits in a `u128`.
pub proof fn lemma_consistent_sum_has_room(s: Stats, ms: u64)
    requires
        stats_consistent(s),
        s.latency_count < u64::MAX,
    ensures
        s.can_observe(ms),
{
    let c = s.latency_count as int;
    let hi = s.latency_max_ms as int;
    let sum = s.latency_sum_ms as int;
    if c > 0 {
        assert(c * hi <= 0xffff_ffff_ffff_fffe * 0xffff_ffff_ffff_ffff) by (nonlinear_arith)
            requires
                0 <= c <= 0xffff_ffff_ffff_fffe,
                0 <= hi <= 0xffff_ffff_ffff_ffff,
        ;
    }
    assert(sum + ms <= u128::MAX);
}

/// One call on the statistics: recording an outcome, or observing a latency.
pub enum StatsCall {
    Record(Outcome),
    Observe(u64),
}

/// The statistics after a call.
pub open spec fn after_call(s: Stats, call: StatsCall) -> Stats {
    match call {
        StatsCall::Record(o) => s.recorded(o),
        StatsCall::Observe(ms) => s.observed(ms),
    }
}

/// Whether a call that brings a latency finds room in the latency count.
/// Nothing is asked of the latency sum, nor of the outcome counters.
pub open spec fn call_fits(s: Stats, call: StatsCall) -> bool {
    match call {
        StatsCall::Record(o) => o.latency() is Some ==> s.latency_count < u64::MAX,
        StatsCall::Observe(_) => s.latency_count < u64::MAX,
    }
}

/// The statistics after `calls`, made in order from empty statistics.
pub open spec fn after_calls(calls: Seq<StatsCall>) -> Stats
    decreases calls.len(),
{
    if calls.len() == 0 {
        empty_stats()
    } else {
        after_call(after_calls(calls.drop_last()), calls.last())
    }
}

/// Whether each of `calls` has room in the statistics that it finds.
pub open spec fn calls_fit(calls: Seq<StatsCall>) -> bool
    decreases calls.len(),
{
    calls.len() == 0 || (calls_fit(calls.drop_last()) && call_fits(
        after_calls(calls.drop_last()),
        calls.last(),
    ))
}

/// Every reachable state of the statistics is consistent, and its latency sum
/// never overflows: from empty statistics, any calls of `record` and
/// `observe_latency` made while the latency count has room leave consistent
/// statistics, whose mean lies between their smallest and largest latency
/// once a latency was observed. Each call finds the latency sum with room
/// for its latency, so the sum bound of those functions is always met; a
/// `record` whose outcome counter is below `u64::MAX` meets its whole
/// precondition.
pub proof fn lemma_reachable_stats(calls: Seq<StatsCall>)
    requires
        calls_fit(calls),
    ensures
        stats_consistent(after_calls(calls)),
        calls.len() > 0 ==> match calls.last() {
            StatsCall::Record(o) => {
                &&& o.latency() matches Some(ms) ==> after_calls(calls.drop_last()).can_observe(ms)
                &&& after_calls(calls.drop_last()).counter(o) < u64::MAX ==> after_calls(
                    calls.drop_last(),
                ).can_record(o)
            },
            StatsCall::Observe(ms) => after_calls(calls.drop_last()).can_observe(ms),
        },
        after_calls(calls).latency_count > 0 ==> after_calls(calls).latency_min_ms.unwrap()
            <= after_calls(calls).average() <= after_calls(calls).latency_max_ms,
    decreases calls.len(),
{
    let s = after_calls(calls);
    if calls.len() == 0 {
        lemma_empty_stats_consistent();
    } else {
        let prev = after_calls(calls.drop_last());
        lemma_reachable_stats(calls.drop_last());
        match calls.last() {
            StatsCall::Record(o) => {
                if let Some(ms) = o.latency() {
                    lemma_consistent_sum_has_room(prev, ms);
                }
                lemma_record_keeps_consistent(prev, o);
            },
            StatsCall::Observe(ms) => {
                lemma_consistent_sum_has_room(prev, ms);
                lemma_observe_keeps_consistent(prev, ms);
            },
        }
    }
    if s.latency_count > 0 {
        lemma_average_between_extremes(s);
    }
}

/// The mean is the sum of the latencies divided by their count, rounded
/// down: with a positive count, consistent statistics have a mean `a` with
/// `a * count <= sum < (a + 1) * count`, which no other number meets; with
/// no latency the mean is zero.
pub proof fn lemma_average_is_mean(s: Stats)
    requires
        stats_consistent(s),
    ensures
        s.latency_count == 0 ==> s.average() == 0,
        s.latency_count > 0 ==> s.average() == (s.latency_sum_ms as int) / (s.latency_count as int),
        s.latency_count > 0 ==> (s.average() as int) * (s.latency_count as int) <= s.latency_sum_ms,
        s.latency_count > 0 ==> s.latency_sum_ms < ((s.average() as int + 1) * (
            s.latency_count as int)),
{
    if s.latency_count > 0 {
        lemma_average_between_extremes(s);
        let c = s.latency_count as int;
        let sum = s.latency_sum_ms as int;
        let q = sum / c;
        assert(q * c <= sum && sum < (q + 1) * c) by (nonlinear_arith)
            requires
                c > 0,
                q == sum / c,
        ;
        let hi = s.latency_max_ms as int;
        assert(q <= hi) by (nonlinear_arith)
            requires
                c > 0,
                q == sum / c,
                sum <= c * hi,
        ;
        assert(s.average() as int == q);
    }
}

// ---------------------------------------------------------------------------
// Statistics over a whole run
// ---------------------------------------------------------------------------

/// The position of an outcome's kind among the ten counters.
pub open spec fn kind_index(o: Outcome) -> int {
    match o {
        Outcome::ReserveHeld { .. } => 0,
        Outcome::ReserveWaitlisted { .. } => 1,
        Outcome::ReserveError { .. } => 2,
        Outcome::ReserveNetworkError => 3,
        Outcome::Abandoned => 4,
        Outcome::PayOk { .. } => 5,
        Outcome::PayExpired { .. } => 6,
        Outcome::PayConflict { .. } => 7,
        Outcome::PayError { .. } => 8,
        Outcome::PayNetworkError => 9,
    }
}

/// The counter at a position.
pub open spec fn counter_at(s: Stats, k: int) -> u64 {
    if k == 0 { s.reserve_held }
    else if k == 1 { s.reserve_waitlisted }
    else if k == 2 { s.reserve_error }
    else if k == 3 { s.reserve_network_error }
    else if k == 4 { s.abandoned }
    else if k == 5 { s.pay_ok }
    else if k == 6 { s.pay_expired }
    else if k == 7 { s.pay_conflict }
    else if k == 8 { s.pay_error }
    else { s.pay_network_error }
}

/// The statistics after recording `os` in order, starting from `s`.
pub open spec fn recorded_all(s: Stats, os: Seq<Outcome>) -> Stats
    decreases os.len(),
{
    if os.len() == 0 {
        s
    } else {
        recorded_all(s, os.drop_last()).recorded(os.last())
    }
}

/// Whether the outcomes of `os` can be recorded in turn from `s` without a
/// counter overflowing.
pub open spec fn can_record_all(s: Stats, os: Seq<Outcome>) -> bool
    decreases os.len(),
{
    os.len() == 0 || (can_record_all(s, os.drop_last()) && recorded_all(
        s,
        os.drop_last(),
    ).can_record(os.last()))
}

/// How many outcomes of `os` are of the kind at position `k`.
pub open spec fn count_kind(os: Seq<Outcome>, k: int) -> int
    decreases os.len(),
{
    if os.len() == 0 {
        0
    } else {
        count_kind(os.drop_last(), k) + if kind_index(os.last()) == k { 1int } else { 0int }
    }
}

/// The latencies of the outcomes of `os` that have one, in order.
pub open spec fn latencies(os: Seq<Outcome>) -> Seq<u64>
    decreases os.len(),
{
    if os.len() == 0 {
        Seq::empty()
    } else {
        match os.last().latency() {
            Some(ms) => latencies(os.drop_last()).push(ms),
            None => latencies(os.drop_last()),
        }
    }
}

/// The sum of some latencies.
pub open spec fn sum_of(ls: Seq<u64>) -> int
    decreases ls.len(),
{
    if ls.len() == 0 {
        0
    } else {
        sum_of(ls.drop_last()) + ls.last()
    }
}

/// The smallest of some latencies; none of none.
pub open spec fn min_of(ls: Seq<u64>) -> Option<u64>
    decreases ls.len(),
{
    if ls.len() == 0 {
        None
    } else {
        match min_of(ls.drop_last()) {
            None => Some(ls.last()),
            Some(m) => Some(if m <= ls.last() { m } else { ls.last() }),
        }
    }
}

/// The largest of some latencies; zero of none.
pub open spec fn max_of(ls: Seq<u64>) -> u64
    decreases ls.len(),
{
    if ls.len() == 0 {
        0
    } else {
        let m = max_of(ls.drop_last());
        if m >= ls.last() { m } else { ls.last() }
    }
}

proof fn lemma_counted_counters(s: Stats, o: Outcome, k: int)
    requires
        0 <= k < 10,
        s.counter(o) < u64::MAX,
    ensures
        counter_at(s.counted(o), k) == counter_at(s, k) + if kind_index(o) == k {
            1int
        } else {
            0int
        },
{
    match o {
        Outcome::ReserveHeld { .. } => {},
        Outcome::ReserveWaitlisted { .. } => {},
        Outcome::ReserveError { .. } => {},
        Outcome::ReserveNetworkError => {},
        Outcome::Abandoned => {},
        Outcome::PayOk { .. } => {},
        Outcome::PayExpired { .. } => {},
        Outcome::PayConflict { .. } => {},
        Outcome::PayError { .. } => {},
        Outcome::PayNetworkError => {},
    }
}

proof fn lemma_recorded_counters(s: Stats, o: Outcome, k: int)
    requires
        0 <= k < 10,
        s.can_record(o),
    ensures
        counter_at(s.recorded(o), k) == counter_at(s, k) + if kind_index(o) == k {
            1int
        } else {
            0int
        },
{
    match o.latency() {
        Some(ms) => {
            let t = s.observed(ms);
            assert(counter_at(t, k) == counter_at(s, k));
            assert(t.counter(o) == s.counter(o));
            lemma_counted_counters(t, o, k);
        },
        None => {
            lemma_counted_counters(s, o, k);
        },
    }
}

/// The statistics of a run are its outcomes summed up: recording `os` from
/// empty statistics leaves each counter at the number of outcomes of its
/// kind (so the counters add up to the number of outcomes), and the latency
/// figures at the count, sum, smallest (none of none) and largest (zero of
/// none) of the latencies among them. The statistics stay consistent along
/// the way, so the mean of a run with some latency lies between its
/// smallest and largest latency.
pub proof fn lemma_run_totals(os: Seq<Outcome>)
    requires
        can_record_all(empty_stats(), os),
    ensures
        ({
            let s = recorded_all(empty_stats(), os);
            let ls = latencies(os);
            &&& forall|k: int| 0 <= k < 10 ==> #[trigger] counter_at(s, k) == count_kind(os, k)
            &&& total_count(s) == os.len()
            &&& s.latency_count == ls.len()
            &&& s.latency_sum_ms == sum_of(ls)
            &&& s.latency_min_ms == min_of(ls)
            &&& s.latency_max_ms == max_of(ls)
            &&& stats_consistent(s)
            &&& ls.len() > 0 ==> s.latency_min_ms.unwrap() <= s.average() <= s.latency_max_ms
        }),
    decreases os.len(),
{
    let s = recorded_all(empty_stats(), os);
    let ls = latencies(os);
    if os.len() == 0 {
        lemma_empty_stats_consistent();
    } else {
        let p = os.drop_last();
        let o = os.last();
        let r = recorded_all(empty_stats(), p);
        lemma_run_totals(p);
        assert(s == r.recorded(o));
        assert forall|k: int| 0 <= k < 10 implies #[trigger] counter_at(s, k) == count_kind(os, k) by {
            lemma_recorded_counters(r, o, k);
        }
        lemma_record_counts_once(r, o);
        lemma_record_keeps_consistent(r, o);
        match o.latency() {
            Some(ms) => {
                assert(ls == latencies(p).push(ms));
                assert(ls.drop_last() =~= latencies(p));
            },
            None => {
                assert(ls == latencies(p));
            },
        }
    }
    if ls.len() > 0 {
        lemma_average_between_extremes(s);
    }
}

proof fn lemma_observed_commute(s: Stats, x: u64, y: u64)
    requires
        s.can_observe(x),
        s.observed(x).can_observe(y),
    ensures
        s.observed(x).observed(y) == s.observed(y).observed(x),
{
}

proof fn lemma_counted_commute(s: Stats, a: Outcome, b: Outcome)
    ensures
        s.counted(a).counted(b) == s.counted(b).counted(a),
{
    match a {
        Outcome::ReserveHeld { .. } => {},
        Outcome::ReserveWaitlisted { .. } => {},
        Outcome::ReserveError { .. } => {},
        Outcome::ReserveNetworkError => {},
        Outcome::Abandoned => {},
        Outcome::PayOk { .. } => {},
        Outcome::PayExpired { .. } => {},
        Outcome::PayConflict { .. } => {},
        Outcome::PayError { .. } => {},
        Outcome::PayNetworkError => {},
    }
}

proof fn lemma_counted_observed_commute(s: Stats, o: Outcome, x: u64)
    ensures
        s.observed(x).counted(o) == s.counted(o).observed(x),
{
    match o {
        Outcome::ReserveHeld { .. } => {},
        Outcome::ReserveWaitlisted { .. } => {},
        Outcome::ReserveError { .. } => {},
        Outcome::ReserveNetworkError => {},
        Outcome::Abandoned => {},
        Outcome::PayOk { .. } => {},
        Outcome::PayExpired { .. } => {},
        Outcome::PayConflict { .. } => {},
        Outcome::PayError { .. } => {},
        Outcome::PayNetworkError => {},
    }
}

/// The order in which outcomes reach the statistics does not matter:
/// recording `a` then `b` gives the same statistics as `b` then `a`, where
/// neither order overflows a counter.
pub proof fn lemma_record_order_irrelevant(s: Stats, a: Outcome, b: Outcome)
    requires
        s.can_record(a),
        s.recorded(a).can_record(b),
        s.can_record(b),
        s.recorded(b).can_record(a),
    ensures
        s.recorded(a).recorded(b) == s.recorded(b).recorded(a),
{
    match (a.latency(), b.latency()) {
        (Some(x), Some(y)) => {
            // a then b: s.observed(x).counted(a).observed(y).counted(b)
            lemma_counted_observed_commute(s.observed(x), a, y);
            lemma_counted_observed_commute(s.observed(y), b, x);
            assert(s.observed(x).counted(a).can_observe(y));
            assert(s.observed(x).can_observe(y));
            lemma_observed_commute(s, x, y);
            lemma_counted_commute(s.observed(x).observed(y), a, b);
        },
        (Some(x), None) => {
            lemma_counted_observed_commute(s.counted(b), a, x);
            lemma_counted_observed_commute(s, b, x);
            lemma_counted_commute(s.observed(x), a, b);
        },
        (None, Some(y)) => {
            lemma_counted_observed_commute(s.counted(a), b, y);
            lemma_counted_observed_commute(s, a, y);
            lemma_counted_commute(s.observed(y), a, b);
        },
        (None, None) => {
            lemma_counted_commute(s, a, b);
        },
    }
}

} // verus!
