//! The readiness poller: a state machine that turns a sequence of probe
//! outcomes into one verdict, probing at most `max_attempts` times and
//! waiting between probes as the policy's backoff prescribes.
//!
//! The machine performs no sleeping and no probing itself. Its driver asks
//! for the pending action, carries it out, and reports back with an event.

use crate::backoff::{lemma_delay_capped, PollPolicy};
use crate::probe::ProbeOutcome;
use vstd::prelude::*;

verus! {

/// The terminal result of one poll session.
#[derive(Debug, PartialEq, Eq)]
pub enum PollVerdict {
    /// A probe found the target ready.
    Ready,
    /// Every allowed probe was spent without finding the target ready.
    /// `last_outcome` is absent only when no probe was allowed at all.
    Failed { attempts_made: u32, last_outcome: Option<ProbeOutcome> },
}

/// Where a poll session stands. Attempts are numbered from one.
#[derive(Debug, PartialEq, Eq)]
pub enum PollState {
    /// Waiting out the delay that precedes probe number `attempt`.
    Waiting { attempt: u32 },
    /// Probe number `attempt` is in flight.
    Probing { attempt: u32 },
    /// Probe number `attempts_made` found the target ready.
    Ready { attempts_made: u32 },
    /// All probes were spent.
    Failed { attempts_made: u32, last_outcome: Option<ProbeOutcome> },
}

/// What the driver reports back to the machine.
#[derive(Debug, PartialEq, Eq)]
pub enum PollEvent {
    /// The requested sleep is over.
    Elapsed,
    /// The requested probe returned.
    Outcome(ProbeOutcome),
}

/// What the machine asks its driver to do next.
#[derive(Clone, Copy, Debug, PartialEq, Eq)]
pub enum PollAction {
    /// Sleep for this long, then report `Elapsed`.
    Sleep { millis: u64 },
    /// Probe once with this deadline, then report the outcome.
    Probe { attempt: u32, timeout_ms: u64 },
    /// The session is over; read the verdict.
    Stop,
}

impl PollState {
    /// Whether the session is over.
    pub open spec fn terminal(&self) -> bool {
        *self is Ready || *self is Failed
    }

    /// The states a session under `policy` can reach.
    pub open spec fn wf(&self, policy: PollPolicy) -> bool {
        match *self {
            PollState::Waiting { attempt } => 1 <= attempt <= policy.max_attempts,
            PollState::Probing { attempt } => 1 <= attempt <= policy.max_attempts,
            PollState::Ready { attempts_made } => 1 <= attempts_made <= policy.max_attempts,
            PollState::Failed { attempts_made, last_outcome } => {
                &&& attempts_made == policy.max_attempts
                &&& last_outcome is Some <==> attempts_made >= 1
                &&& last_outcome matches Some(o) ==> !o.ready(policy.accept_malformed)
            },
        }
    }

    /// The verdict a terminal state carries.
    pub open spec fn verdict(&self) -> Option<PollVerdict> {
        match *self {
            PollState::Ready { .. } => Some(PollVerdict::Ready),
            PollState::Failed { attempts_made, last_outcome } => Some(
                PollVerdict::Failed { attempts_made, last_outcome },
            ),
            _ => None,
        }
    }

    /// Whether the session is over.
    pub fn is_terminal(&self) -> (r: bool)
        ensures
            r == self.terminal(),
    {
        match self {
            PollState::Ready { .. } => true,
            PollState::Failed { .. } => true,
            _ => false,
        }
    }

    /// The verdict of a finished session, `None` while it is still running.
    pub fn into_verdict(self) -> (r: Option<PollVerdict>)
        ensures
            r == self.verdict(),
    {
        match self {
            PollState::Ready { .. } => Some(PollVerdict::Ready),
            PollState::Failed { attempts_made, last_outcome } => Some(
                PollVerdict::Failed { attempts_made, last_outcome },
            ),
            _ => None,
        }
    }
}

/// The state a session starts in: waiting for the first probe, or already
/// failed when the policy allows no probe.
pub open spec fn initial_state(policy: PollPolicy) -> PollState {
    if policy.max_attempts == 0 {
        PollState::Failed { attempts_made: 0, last_outcome: None }
    } else {
        PollState::Waiting { attempt: 1 }
    }
}

/// The action the driver owes the machine in `state`.
pub open spec fn pending_action(policy: PollPolicy, state: PollState) -> PollAction {
    match state {
        PollState::Waiting { attempt } => PollAction::Sleep {
            millis: policy.wait_before(attempt as nat) as u64,
        },
        PollState::Probing { attempt } => PollAction::Probe {
            attempt,
            timeout_ms: policy.per_attempt_timeout_ms,
        },
        _ => PollAction::Stop,
    }
}

/// The transition rule. A finished sleep starts the probe. A ready outcome
/// ends the session with success, also at the last allowed attempt; any other
/// outcome leads to the next wait while attempts remain and to failure when
/// none does. An event that does not answer the pending action changes
/// nothing.
pub open spec fn next_state(policy: PollPolicy, state: PollState, event: PollEvent) -> PollState {
    match (state, event) {
        (PollState::Waiting { attempt }, PollEvent::Elapsed) => PollState::Probing { attempt },
        (PollState::Probing { attempt }, PollEvent::Outcome(outcome)) => {
            if outcome.ready(policy.accept_malformed) {
                PollState::Ready { attempts_made: attempt }
            } else if attempt < policy.max_attempts {
                PollState::Waiting { attempt: (attempt + 1) as u32 }
            } else {
                PollState::Failed { attempts_made: attempt, last_outcome: Some(outcome) }
            }
        },
        _ => state,
    }
}

/// Opens a session.
pub fn start(policy: &PollPolicy) -> (state: PollState)
    ensures
        state == initial_state(*policy),
        state.wf(*policy),
{
    if policy.max_attempts == 0 {
        PollState::Failed { attempts_made: 0, last_outcome: None }
    } else {
        PollState::Waiting { attempt: 1 }
    }
}

/// The action the driver must carry out in `state`.
pub fn action_for(policy: &PollPolicy, state: &PollState) -> (action: PollAction)
    ensures
        action == pending_action(*policy, *state),
        state.terminal() <==> action is Stop,
        action matches PollAction::Sleep { millis } ==> state matches PollState::Waiting {
            attempt,
        } && millis == policy.wait_before(attempt as nat),
{
    match state {
        PollState::Waiting { attempt } => {
            proof {
                if *attempt >= 2 {
                    lemma_delay_capped(*policy, (*attempt - 1) as nat);
                }
            }
            PollAction::Sleep { millis: policy.wait_before_attempt(*attempt) }
        },
        PollState::Probing { attempt } => PollAction::Probe {
            attempt: *attempt,
            timeout_ms: policy.per_attempt_timeout_ms,
        },
        _ => PollAction::Stop,
    }
}

/// Applies one event to the machine.
pub fn advance(policy: &PollPolicy, state: PollState, event: PollEvent) -> (next: PollState)
    ensures
        next == next_state(*policy, state, event),
        state.wf(*policy) ==> next.wf(*policy),
        state.terminal() ==> next == state,
{
    match state {
        PollState::Waiting { attempt } => match event {
            PollEvent::Elapsed => PollState::Probing { attempt },
            PollEvent::Outcome(_) => PollState::Waiting { attempt },
        },
        PollState::Probing { attempt } => match event {
            PollEvent::Outcome(outcome) => {
                if outcome.is_ready(policy.accept_malformed) {
                    PollState::Ready { attempts_made: attempt }
                } else if attempt < policy.max_attempts {
                    PollState::Waiting { attempt: attempt + 1 }
                } else {
                    PollState::Failed { attempts_made: attempt, last_outcome: Some(outcome) }
                }
            },
            PollEvent::Elapsed => PollState::Probing { attempt },
        },
        PollState::Ready { attempts_made } => PollState::Ready { attempts_made },
        PollState::Failed { attempts_made, last_outcome } => PollState::Failed {
            attempts_made,
            last_outcome,
        },
    }
}

/// The index of the first ready outcome at or after `from`, or the length of
/// the script when there is none.
pub open spec fn first_ready_from(script: Seq<ProbeOutcome>, accept_malformed: bool, from: int) -> int
    decreases script.len() - from,
{
    if from >= script.len() || script[from].ready(accept_malformed) {
        from
    } else {
        first_ready_from(script, accept_malformed, from + 1)
    }
}

/// The number of outcomes that precede the first ready one.
pub open spec fn leading_failures(script: Seq<ProbeOutcome>, accept_malformed: bool) -> int {
    first_ready_from(script, accept_malformed, 0)
}

/// Whether a session fed from `script` finds the target ready before its
/// attempts run out.
pub open spec fn script_reaches_ready(policy: PollPolicy, script: Seq<ProbeOutcome>) -> bool {
    let k = leading_failures(script, policy.accept_malformed);
    k < policy.max_attempts && k < script.len()
}

/// The number of probes a session fed from `script` performs.
pub open spec fn scripted_probes(policy: PollPolicy, script: Seq<ProbeOutcome>) -> nat {
    if script_reaches_ready(policy, script) {
        (leading_failures(script, policy.accept_malformed) + 1) as nat
    } else if policy.max_attempts <= script.len() {
        policy.max_attempts as nat
    } else {
        script.len()
    }
}

/// The verdict of a session fed from `script`: ready at the first ready
/// outcome among the allowed attempts, failed with the last outcome seen when
/// the attempts are spent, and none when the script ends before either.
pub open spec fn scripted_verdict(policy: PollPolicy, script: Seq<ProbeOutcome>) -> Option<
    PollVerdict,
> {
    if script_reaches_ready(policy, script) {
        Some(PollVerdict::Ready)
    } else if policy.max_attempts <= script.len() {
        Some(
            PollVerdict::Failed {
                attempts_made: policy.max_attempts,
                last_outcome: if policy.max_attempts == 0 {
                    None
                } else {
                    Some(script[policy.max_attempts - 1])
                },
            },
        )
    } else {
        None
    }
}

/// The waits that precede each probe of a session fed from `script`.
pub open spec fn scripted_waits(policy: PollPolicy, script: Seq<ProbeOutcome>) -> Seq<u64> {
    Seq::new(scripted_probes(policy, script), |i: int| policy.wait_before((i + 1) as nat) as u64)
}

/// The time a session has spent waiting once it has performed `probes`
/// probes: the sum of the waits that preceded them.
pub open spec fn total_wait(policy: PollPolicy, probes: nat) -> nat
    decreases probes,
{
    if probes == 0 {
        0
    } else {
        total_wait(policy, (probes - 1) as nat) + policy.wait_before(probes)
    }
}

/// What a scripted session did.
#[derive(Debug, PartialEq, Eq)]
pub struct PollReport {
    /// The verdict, or `None` when the script ended first.
    pub verdict: Option<PollVerdict>,
    /// How many probes were performed.
    pub probes: u32,
    /// The wait before each probe, in order, in milliseconds.
    pub waits_ms: Vec<u64>,
    /// The sum of all waits, in milliseconds.
    pub total_wait_ms: u128,
}

/// Whether `report` is what a session under `policy` fed from `script` does.
pub open spec fn is_report_of(policy: PollPolicy, script: Seq<ProbeOutcome>, report: PollReport) -> bool {
    &&& report.verdict == scripted_verdict(policy, script)
    &&& report.probes == scripted_probes(policy, script)
    &&& report.waits_ms@ == scripted_waits(policy, script)
    &&& report.total_wait_ms == total_wait(policy, scripted_probes(policy, script))
}

/// The first ready outcome at or after `from` lies between `from` and the end
/// of the script, nothing before it is ready, and it is ready itself.
pub proof fn lemma_first_ready_from(script: Seq<ProbeOutcome>, accept_malformed: bool, from: int)
    requires
        0 <= from <= script.len(),
    ensures
        from <= first_ready_from(script, accept_malformed, from) <= script.len(),
        forall|i: int|
            from <= i < first_ready_from(script, accept_malformed, from) ==> !(#[trigger] script[i]).ready(
                accept_malformed,
            ),
        first_ready_from(script, accept_malformed, from) < script.len() ==> script[first_ready_from(
            script,
            accept_malformed,
            from,
        )].ready(accept_malformed),
    decreases script.len() - from,
{
    if from < script.len() && !script[from].ready(accept_malformed) {
        lemma_first_ready_from(script, accept_malformed, from + 1);
    }
}

/// Skipping outcomes that are not ready does not move the first ready one.
pub proof fn lemma_first_ready_skips_failures(
    script: Seq<ProbeOutcome>,
    accept_malformed: bool,
    upto: int,
)
    requires
        0 <= upto <= script.len(),
        forall|i: int| 0 <= i < upto ==> !(#[trigger] script[i]).ready(accept_malformed),
    ensures
        leading_failures(script, accept_malformed) == first_ready_from(
            script,
            accept_malformed,
            upto,
        ),
    decreases upto,
{
    if upto > 0 {
        lemma_first_ready_skips_failures(script, accept_malformed, upto - 1);
    }
}

/// Runs a whole session against a scripted sequence of probe outcomes,
/// driving the state machine exactly as a live driver would, and reports the
/// verdict, the number of probes and the wait before each.
pub fn poll_scripted(policy: &PollPolicy, script: &Vec<ProbeOutcome>) -> (report: PollReport)
    ensures
        is_report_of(*policy, script@, report),
{
    let ghost accept = policy.accept_malformed;
    let mut state: PollState = start(policy);
    let mut waits: Vec<u64> = Vec::new();
    let mut total: u128 = 0;
    let mut i: usize = 0;
    proof {
        lemma_first_ready_from(script@, accept, 0);
    }
    while i < script.len() && !state.is_terminal()
        invariant
            accept == policy.accept_malformed,
            i <= script.len(),
            state.wf(*policy),
            !(state is Probing),
            waits@ == Seq::new(i as nat, |j: int| policy.wait_before((j + 1) as nat) as u64),
            total == total_wait(*policy, i as nat),
            total <= i * 0xffff_ffff_ffff_ffff,
            i <= 0xffff_ffff,
            state matches PollState::Waiting { attempt } ==> {
                &&& attempt == i + 1
                &&& leading_failures(script@, accept) == first_ready_from(script@, accept, i as int)
            },
            state.terminal() ==> {
                &&& i == scripted_probes(*policy, script@)
                &&& state.verdict() == scripted_verdict(*policy, script@)
            },
        decreases script.len() - i,
    {
        let wait: PollAction = action_for(policy, &state);
        match wait {
            PollAction::Sleep { millis } => {
                assert((i + 1) * 0xffff_ffff_ffff_ffff <= 0x1_0000_0000 * 0xffff_ffff_ffff_ffff)
                    by (nonlinear_arith)
                    requires
                        i + 1 <= 0x1_0000_0000,
                ;
                assert(total + millis <= (i + 1) * 0xffff_ffff_ffff_ffff) by (nonlinear_arith)
                    requires
                        total <= i * 0xffff_ffff_ffff_ffff,
                        millis <= 0xffff_ffff_ffff_ffff,
                ;
                waits.push(millis);
                total = total + millis as u128;
            },
            _ => {},
        }
        let probing: PollState = advance(policy, state, PollEvent::Elapsed);
        let outcome: ProbeOutcome = script[i].clone();
        proof {
            lemma_first_ready_from(script@, accept, i + 1);
        }
        state = advance(policy, probing, PollEvent::Outcome(outcome));
        i = i + 1;
        assert(waits@ =~= Seq::new(i as nat, |j: int| policy.wait_before((j + 1) as nat) as u64));
    }
    proof {
        if !state.terminal() {
            assert(i == script.len());
        }
        assert(waits@ =~= scripted_waits(*policy, script@));
    }
    PollReport {
        verdict: state.into_verdict(),
        probes: i as u32,
        waits_ms: waits,
        total_wait_ms: total,
    }
}

/// The state a driver leaves the machine in when it starts in `state`, has
/// the outcomes of `script` from position `i` on to report, and answers
/// every sleep with `Elapsed` and every probe with the next outcome.
pub open spec fn driven_from(
    policy: PollPolicy,
    state: PollState,
    script: Seq<ProbeOutcome>,
    i: int,
) -> PollState
    decreases script.len() - i,
{
    if i < 0 || i >= script.len() || state.terminal() {
        state
    } else {
        let probing = next_state(policy, state, PollEvent::Elapsed);
        driven_from(
            policy,
            next_state(policy, probing, PollEvent::Outcome(script[i])),
            script,
            i + 1,
        )
    }
}

/// A machine that waits for probe `i + 1` after `i` failures ends where the
/// script says.
proof fn lemma_driven_from_waiting(policy: PollPolicy, script: Seq<ProbeOutcome>, i: int)
    requires
        0 <= i <= script.len(),
        i < policy.max_attempts,
        forall|j: int| 0 <= j < i ==> !(#[trigger] script[j]).ready(policy.accept_malformed),
    ensures
        driven_from(
            policy,
            PollState::Waiting { attempt: (i + 1) as u32 },
            script,
            i,
        ).verdict() == scripted_verdict(policy, script),
        driven_from(policy, PollState::Waiting { attempt: (i + 1) as u32 }, script, i).wf(policy),
    decreases script.len() - i,
{
    let accept = policy.accept_malformed;
    lemma_first_ready_skips_failures(script, accept, i);
    lemma_first_ready_from(script, accept, i);
    let attempt = (i + 1) as u32;
    let waiting = PollState::Waiting { attempt };
    if i < script.len() {
        let probing = next_state(policy, waiting, PollEvent::Elapsed);
        assert(probing == PollState::Probing { attempt });
        let after = next_state(policy, probing, PollEvent::Outcome(script[i]));
        assert(driven_from(policy, waiting, script, i) == driven_from(
            policy,
            after,
            script,
            i + 1,
        ));
        if script[i].ready(accept) {
            assert(after == PollState::Ready { attempts_made: attempt });
            assert(driven_from(policy, after, script, i + 1) == after);
        } else if i + 1 < policy.max_attempts {
            assert(after == PollState::Waiting { attempt: (i + 2) as u32 });
            lemma_driven_from_waiting(policy, script, i + 1);
        } else {
            lemma_first_ready_from(script, accept, i + 1);
            assert(after == PollState::Failed {
                attempts_made: attempt,
                last_outcome: Some(script[i]),
            });
            assert(driven_from(policy, after, script, i + 1) == after);
        }
    } else {
        assert(driven_from(policy, waiting, script, i) == waiting);
    }
}

/// The state machine and the script agree: a driver that starts a session
/// and reports the outcomes of `script` in order ends in a state that
/// carries exactly the scripted verdict, and in a running state exactly when
/// the script ends before a verdict.
pub proof fn lemma_machine_follows_script(policy: PollPolicy, script: Seq<ProbeOutcome>)
    ensures
        driven_from(policy, initial_state(policy), script, 0).verdict() == scripted_verdict(
            policy,
            script,
        ),
        driven_from(policy, initial_state(policy), script, 0).wf(policy),
{
    if policy.max_attempts > 0 {
        lemma_driven_from_waiting(policy, script, 0);
    } else {
        lemma_first_ready_from(script, policy.accept_malformed, 0);
    }
}

/// A script in which no allowed attempt is ready ends in failure after
/// exactly `max_attempts` probes, carrying the last outcome seen.
pub proof fn lemma_never_ready_fails(policy: PollPolicy, script: Seq<ProbeOutcome>)
    requires
        script.len() >= policy.max_attempts,
        forall|i: int|
            0 <= i < policy.max_attempts ==> !(#[trigger] script[i]).ready(policy.accept_malformed),
    ensures
        scripted_probes(policy, script) == policy.max_attempts,
        scripted_verdict(policy, script) == Some(
            PollVerdict::Failed {
                attempts_made: policy.max_attempts,
                last_outcome: if policy.max_attempts == 0 {
                    None
                } else {
                    Some(script[policy.max_attempts - 1])
                },
            },
        ),
{
    lemma_first_ready_skips_failures(script, policy.accept_malformed, policy.max_attempts as int);
    lemma_first_ready_from(script, policy.accept_malformed, policy.max_attempts as int);
}

/// A script whose first ready outcome is the `k`-th, with `k` within the
/// allowed attempts, ends ready after exactly `k` probes.
pub proof fn lemma_first_ready_wins(policy: PollPolicy, script: Seq<ProbeOutcome>, k: nat)
    requires
        1 <= k <= policy.max_attempts,
        k <= script.len(),
        forall|i: int| 0 <= i < k - 1 ==> !(#[trigger] script[i]).ready(policy.accept_malformed),
        script[k - 1].ready(policy.accept_malformed),
    ensures
        scripted_probes(policy, script) == k,
        scripted_verdict(policy, script) == Some(PollVerdict::Ready),
{
    lemma_first_ready_skips_failures(script, policy.accept_malformed, k - 1);
}

/// What follows the deciding probe has no influence: two scripts that agree
/// on the probes a session performs give the same verdict, the same number of
/// probes and the same waits.
pub proof fn lemma_later_outcomes_ignored(
    policy: PollPolicy,
    script: Seq<ProbeOutcome>,
    other: Seq<ProbeOutcome>,
)
    requires
        scripted_verdict(policy, script) is Some,
        other.len() >= scripted_probes(policy, script),
        forall|i: int| 0 <= i < scripted_probes(policy, script) ==> script[i] == other[i],
    ensures
        scripted_verdict(policy, other) == scripted_verdict(policy, script),
        scripted_probes(policy, other) == scripted_probes(policy, script),
        scripted_waits(policy, other) == scripted_waits(policy, script),
{
    let accept = policy.accept_malformed;
    lemma_first_ready_from(script, accept, 0);
    if script_reaches_ready(policy, script) {
        let k = (leading_failures(script, accept) + 1) as nat;
        assert forall|i: int| 0 <= i < k - 1 implies !(#[trigger] other[i]).ready(accept) by {
            assert(script[i] == other[i]);
        }
        assert(script[k - 1] == other[k - 1]);
        lemma_first_ready_wins(policy, other, k);
    } else {
        assert forall|i: int| 0 <= i < policy.max_attempts implies !(#[trigger] other[i]).ready(
            accept,
        ) by {
            assert(script[i] == other[i]);
        }
        lemma_never_ready_fails(policy, other);
        if policy.max_attempts > 0 {
            assert(script[policy.max_attempts - 1] == other[policy.max_attempts - 1]);
        }
    }
}

/// A session is a function of its policy and its probe outcomes: two runs
/// over the same script under the same policy report the same verdict, the
/// same number of probes and the same waits.
pub proof fn lemma_poll_deterministic(
    policy: PollPolicy,
    script: Seq<ProbeOutcome>,
    first: PollReport,
    second: PollReport,
)
    requires
        is_report_of(policy, script, first),
        is_report_of(policy, script, second),
    ensures
        first.verdict == second.verdict,
        first.probes == second.probes,
        first.waits_ms@ == second.waits_ms@,
        first.total_wait_ms == second.total_wait_ms,
{
}

/// With a single allowed attempt a session probes exactly once, after the
/// startup delay only: it is ready when that probe is, and failed with that
/// probe's outcome otherwise. No backoff wait is ever requested.
pub proof fn lemma_single_attempt(policy: PollPolicy, script: Seq<ProbeOutcome>)
    requires
        policy.max_attempts == 1,
        script.len() >= 1,
    ensures
        scripted_probes(policy, script) == 1,
        scripted_waits(policy, script) == seq![policy.startup_delay_ms],
        script[0].ready(policy.accept_malformed) ==> scripted_verdict(policy, script) == Some(
            PollVerdict::Ready,
        ),
        !script[0].ready(policy.accept_malformed) ==> scripted_verdict(policy, script) == Some(
            PollVerdict::Failed { attempts_made: 1, last_outcome: Some(script[0]) },
        ),
        forall|outcome: ProbeOutcome| #[trigger]
            next_state(
                policy,
                PollState::Probing { attempt: 1 },
                PollEvent::Outcome(outcome),
            ).terminal(),
{
    let accept = policy.accept_malformed;
    if script[0].ready(accept) {
        lemma_first_ready_wins(policy, script, 1);
    } else {
        lemma_never_ready_fails(policy, script);
    }
    assert(scripted_waits(policy, script) =~= seq![policy.startup_delay_ms]);
}

} // verus!
