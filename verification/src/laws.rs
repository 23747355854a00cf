//! What holds of every run, stated over the outcomes of its attempts.

use vstd::prelude::*;
use vstd::set_lib::{lemma_int_range, lemma_len_subset, set_int_range};
use vstd::arithmetic::div_mod::{lemma_mod_add_multiples_vanish, lemma_small_mod};
use crate::attempt::{whole_ms, Event, State};
use crate::outcome::{failures, successes, Outcome, SEAT_MAX, SEAT_MIN};
use crate::resultados::{counter_modulus, wrapped, Resultados};

verus! {

/// Every outcome satisfies [`Outcome::wf`].
pub open spec fn all_wf(outcomes: Seq<Outcome>) -> bool {
    forall|i: int| 0 <= i < outcomes.len() ==> (#[trigger] outcomes[i]).wf()
}

/// The seat that a success reserved.
pub open spec fn seat_of(outcome: Outcome) -> int
    recommends
        outcome is Success,
{
    match outcome {
        Outcome::Success { asiento_id, .. } => asiento_id as int,
        Outcome::Failure { .. } => 0,
    }
}

/// No two successes reserved the same seat: what a uniqueness constraint on
/// the seat column enforces when nothing is retried.
pub open spec fn seats_unique(outcomes: Seq<Outcome>) -> bool {
    forall|i: int, j: int|
        0 <= i < j < outcomes.len() && outcomes[i] is Success && outcomes[j] is Success
            ==> seat_of(outcomes[i]) != seat_of(outcomes[j])
}

/// The seats that the successes among the outcomes reserved.
pub open spec fn reserved_seats(outcomes: Seq<Outcome>) -> Set<int> {
    Set::new(
        |seat: int|
            exists|i: int|
                0 <= i < outcomes.len() && outcomes[i] is Success && seat_of(outcomes[i]) == seat,
    )
}

/// An attempt ends in exactly one of the two ways, so the successes and the
/// failures of a run add up to its attempts.
pub proof fn lemma_every_attempt_counted_once(outcomes: Seq<Outcome>)
    ensures
        successes(outcomes) + failures(outcomes) == outcomes.len(),
    decreases outcomes.len(),
{
    if outcomes.len() > 0 {
        lemma_every_attempt_counted_once(outcomes.drop_last());
    }
}

/// With unique seats there are as many successes as reserved seats.
proof fn lemma_successes_are_reserved_seats(outcomes: Seq<Outcome>)
    requires
        seats_unique(outcomes),
    ensures
        reserved_seats(outcomes).finite(),
        reserved_seats(outcomes).len() == successes(outcomes),
    decreases outcomes.len(),
{
    if outcomes.len() == 0 {
        assert(reserved_seats(outcomes) =~= Set::<int>::empty());
    } else {
        let front = outcomes.drop_last();
        let last = outcomes.last();
        assert(seats_unique(front)) by {
            assert forall|i: int, j: int|
                0 <= i < j < front.len() && front[i] is Success && front[j] is Success implies seat_of(
                front[i],
            ) != seat_of(front[j]) by {
                assert(front[i] == outcomes[i]);
                assert(front[j] == outcomes[j]);
            }
        }
        lemma_successes_are_reserved_seats(front);
        if last is Success {
            let seat = seat_of(last);
            assert(!reserved_seats(front).contains(seat)) by {
                if reserved_seats(front).contains(seat) {
                    let i = choose|i: int|
                        0 <= i < front.len() && front[i] is Success && seat_of(front[i]) == seat;
                    assert(front[i] == outcomes[i]);
                    assert(outcomes[outcomes.len() - 1] == last);
                }
            }
            assert(reserved_seats(outcomes) =~= reserved_seats(front).insert(seat)) by {
                assert forall|s: int| reserved_seats(outcomes).contains(s) implies reserved_seats(
                    front,
                ).insert(seat).contains(s) by {
                    let i = choose|i: int|
                        0 <= i < outcomes.len() && outcomes[i] is Success && seat_of(outcomes[i])
                            == s;
                    if i < front.len() {
                        assert(front[i] == outcomes[i]);
                    }
                }
                assert forall|s: int| reserved_seats(front).insert(seat).contains(
                    s,
                ) implies reserved_seats(outcomes).contains(s) by {
                    if s == seat {
                        assert(outcomes[outcomes.len() - 1] == last);
                    } else {
                        let i = choose|i: int|
                            0 <= i < front.len() && front[i] is Success && seat_of(front[i]) == s;
                        assert(front[i] == outcomes[i]);
                    }
                }
            }
        } else {
            assert(reserved_seats(outcomes) =~= reserved_seats(front)) by {
                assert forall|s: int| reserved_seats(outcomes).contains(s) implies reserved_seats(
                    front,
                ).contains(s) by {
                    let i = choose|i: int|
                        0 <= i < outcomes.len() && outcomes[i] is Success && seat_of(outcomes[i])
                            == s;
                    assert(front[i] == outcomes[i]);
                }
                assert forall|s: int| reserved_seats(front).contains(s) implies reserved_seats(
                    outcomes,
                ).contains(s) by {
                    let i = choose|i: int|
                        0 <= i < front.len() && front[i] is Success && seat_of(front[i]) == s;
                    assert(front[i] == outcomes[i]);
                }
            }
        }
    }
}

/// When no seat is reserved twice, a run has at most as many successes as
/// there are seats, and at most as many as it has attempts.
pub proof fn lemma_successes_bounded_by_seats(outcomes: Seq<Outcome>)
    requires
        all_wf(outcomes),
        seats_unique(outcomes),
    ensures
        0 <= successes(outcomes) <= outcomes.len(),
        successes(outcomes) <= SEAT_MAX - SEAT_MIN + 1,
        successes(outcomes) <= 10,
{
    lemma_every_attempt_counted_once(outcomes);
    lemma_successes_are_reserved_seats(outcomes);
    let domain = set_int_range(SEAT_MIN as int, SEAT_MAX + 1);
    lemma_int_range(SEAT_MIN as int, SEAT_MAX + 1);
    assert(reserved_seats(outcomes).subset_of(domain)) by {
        assert forall|s: int| reserved_seats(outcomes).contains(s) implies domain.contains(s) by {
            let i = choose|i: int|
                0 <= i < outcomes.len() && outcomes[i] is Success && seat_of(outcomes[i]) == s;
            assert(outcomes[i].wf());
        }
    }
    lemma_len_subset(reserved_seats(outcomes), domain);
}

/// Reading an accumulator that nothing writes to gives the same triple each time.
pub proof fn lemma_snapshot_idempotent(
    resultados: Resultados,
    first: (usize, usize, usize),
    second: (usize, usize, usize),
)
    requires
        first == resultados@,
        second == resultados@,
    ensures
        first == second,
{
}

/// A counter that is incremented changes.
proof fn lemma_increment_changes(count: usize)
    ensures
        wrapped(count + 1) != count,
{
    let m = counter_modulus();
    if count + 1 < m {
        lemma_small_mod((count + 1) as nat, m as nat);
    } else {
        lemma_mod_add_multiples_vanish(0, m);
        lemma_small_mod(0, m as nat);
    }
}

/// An attempt is counted in exactly one of the two buckets: recording its
/// outcome increments the successes or the failures, never both and never
/// neither, and only a success adds to the summed latency.
pub proof fn lemma_outcome_counted_in_one_bucket(resultados: Resultados, outcome: Outcome)
    ensures
        outcome is Success ==> {
            &&& resultados.after(outcome).0 == wrapped(resultados.exitosas() + 1)
            &&& resultados.after(outcome).0 != resultados.exitosas()
            &&& resultados.after(outcome).1 == resultados.fallidas()
        },
        outcome is Failure ==> {
            &&& resultados.after(outcome).0 == resultados.exitosas()
            &&& resultados.after(outcome).1 == wrapped(resultados.fallidas() + 1)
            &&& resultados.after(outcome).1 != resultados.fallidas()
            &&& resultados.after(outcome).2 == resultados.tiempos_ms()
        },
{
    lemma_increment_changes(resultados.exitosas());
    lemma_increment_changes(resultados.fallidas());
}

/// A successful attempt adds to the summed latency exactly what the clock
/// read just after its commit returned, in whole milliseconds: the reading
/// that comes with the commit is the latency of the outcome, and recording
/// the outcome adds that latency once.
pub proof fn lemma_success_contributes_measured_latency(
    resultados: Resultados,
    state: State,
    elapsed_ms: u128,
    asiento_id: i32,
)
    requires
        state is Written,
    ensures
        state.step(Event::Committed { elapsed_ms }) is Success,
        state.step(Event::Committed { elapsed_ms }).ended(asiento_id) matches Some(outcome) && {
            &&& outcome matches Outcome::Success { duration_ms, .. } && duration_ms == whole_ms(
                elapsed_ms,
            )
            &&& resultados.after(outcome).2 == wrapped(
                resultados.tiempos_ms() + whole_ms(elapsed_ms),
            )
            &&& resultados.after(outcome).0 == wrapped(resultados.exitosas() + 1)
        },
{
}

/// An attempt that fails adds nothing to the summed latency, at whichever
/// step it failed.
pub proof fn lemma_failure_contributes_no_latency(
    resultados: Resultados,
    state: State,
    event: Event,
    asiento_id: i32,
)
    requires
        state.step(event) is Fail,
    ensures
        state.step(event).ended(asiento_id) matches Some(outcome) && outcome is Failure
            && resultados.after(outcome).2 == resultados.tiempos_ms(),
{
}

/// Once an attempt has ended, no event moves it.
pub proof fn lemma_terminal_states_absorb(state: State, event: Event)
    requires
        state.terminal(),
    ensures
        state.step(event) == state,
{
}

/// Every answer to the action that is due brings the attempt nearer to its
/// end: an attempt ends after four round-trips at most.
pub proof fn lemma_step_makes_progress(state: State, event: Event, ok: bool)
    requires
        !state.terminal(),
        event.answers(state, ok),
    ensures
        state.step(event).remaining() < state.remaining(),
        state.remaining() <= 4,
{
}

/// A step keeps the user id within the range it was drawn from.
pub proof fn lemma_step_keeps_wf(state: State, event: Event)
    requires
        state.wf(),
        event.wf(),
    ensures
        state.step(event).wf(),
{
}

/// A transaction is opened only by a successful begin, and once open it is
/// closed by a commit or a rollback and by nothing else: a step that leaves
/// the open transaction answers one of the two, and ends the attempt.
pub proof fn lemma_transaction_closed_by_commit_or_rollback(
    state: State,
    event: Event,
    asiento_id: i32,
)
    ensures
        !state.in_transaction() && state.step(event).in_transaction() ==> state is Start
            && event is Begun,
        state.in_transaction() && !state.step(event).in_transaction() ==> {
            &&& state.due(asiento_id) is Commit || state.due(asiento_id) is Rollback
            &&& state.step(event).terminal()
        },
        state.in_transaction() && event is Failed && !(state is Written) ==> state.step(
            event,
        ).due(asiento_id) is Rollback || state.step(event).terminal(),
{
}

/// An error inside the open transaction is what the attempt fails with: the
/// rollback that follows ends the attempt under the step that failed first,
/// whether the rollback itself succeeds or not.
pub proof fn lemma_rollback_keeps_first_failure(state: State, answer: Event)
    requires
        state is Open || state is Ready,
        answer is RolledBack || answer is Failed,
    ensures
        state.step(Event::Failed) is Rollback,
        state.step(Event::Failed).step(answer) == (State::Fail {
            stage: state.step(Event::Failed)->Rollback_stage,
        }),
        state is Open ==> state.step(Event::Failed).step(answer) == (State::Fail {
            stage: crate::outcome::Stage::SetIsolation,
        }),
        state is Ready ==> state.step(Event::Failed).step(answer) == (State::Fail {
            stage: crate::outcome::Stage::Insert,
        }),
{
}

/// The state that an attempt reaches from `state` over the events, in order.
pub open spec fn run(state: State, events: Seq<Event>) -> State
    decreases events.len(),
{
    if events.len() == 0 {
        state
    } else {
        run(state.step(events.first()), events.drop_first())
    }
}

/// Each event is an answer, with or without error, to the action that was
/// due when it came.
pub open spec fn answered(state: State, events: Seq<Event>) -> bool
    decreases events.len(),
{
    events.len() > 0 ==> {
        &&& events.first().answers(state, true) || events.first().answers(state, false)
        &&& answered(state.step(events.first()), events.drop_first())
    }
}

/// How many commits and rollbacks were sent along the run.
pub open spec fn closings(state: State, events: Seq<Event>) -> nat
    decreases events.len(),
{
    if events.len() == 0 {
        0
    } else {
        closings(state.step(events.first()), events.drop_first()) + if state is Written
            || state is Rollback {
            1nat
        } else {
            0nat
        }
    }
}

/// An attempt whose actions are all answered has ended once as many answers
/// have come as the state had round-trips left: nothing keeps an attempt
/// from its end, and four answers always suffice.
pub proof fn lemma_run_ends(state: State, events: Seq<Event>)
    requires
        answered(state, events),
        events.len() >= state.remaining(),
    ensures
        run(state, events).terminal(),
    decreases events.len(),
{
    if events.len() > 0 {
        let ok = events.first().answers(state, true);
        if !state.terminal() {
            lemma_step_makes_progress(state, events.first(), ok);
        }
        lemma_run_ends(state.step(events.first()), events.drop_first());
    }
}

/// Commits and rollbacks close transactions and nothing else does, so they
/// are sent only while one is open: `Written` and `Rollback` are the states
/// in which one of the two is due.
pub proof fn lemma_closing_states(state: State, asiento_id: i32)
    ensures
        state is Written <==> state.due(asiento_id) is Commit,
        state is Rollback <==> state.due(asiento_id) is Rollback,
{
}

/// The transaction of an attempt is closed exactly once on every path: along
/// any run that reaches the end, one commit or rollback is sent if a
/// transaction is open or is opened on the way, and none if the begin failed.
pub proof fn lemma_transaction_closed_exactly_once(state: State, events: Seq<Event>)
    requires
        answered(state, events),
        run(state, events).terminal(),
    ensures
        state.in_transaction() ==> closings(state, events) == 1,
        state is Start ==> events.len() > 0 && closings(state, events) == if events.first()
            is Begun {
            1nat
        } else {
            0nat
        },
        state.terminal() ==> closings(state, events) == 0,
    decreases events.len(),
{
    if events.len() > 0 {
        lemma_transaction_closed_exactly_once(state.step(events.first()), events.drop_first());
    }
}

} // verus!
