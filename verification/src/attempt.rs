//! One reservation attempt: a single transaction that tries to insert a row
//! for a contended seat, and either commits or fails.
//!
//! The attempt decides; its caller performs. [`Attempt::action`] names the
//! database round-trip that is due, the caller makes it and reports whether
//! it returned an error, and [`Attempt::advance`] moves on from there.

use vstd::prelude::*;
use std::time::Instant;
use crate::outcome::{Outcome, Stage, SEAT_MAX, SEAT_MIN, USER_MAX, USER_MIN};
use crate::outside::{random_in_range, utc_now_micros};
use crate::resultados::wrapped;

verus! {

/// The row that an attempt inserts.
#[derive(Clone, Copy, Debug, PartialEq, Eq, Structural)]
pub struct Reserva {
    /// The contended seat.
    pub asiento_id: i32,
    /// The user the seat is reserved for.
    pub usuario_id: i32,
    /// The UTC instant at which the row was made, in microseconds since the Unix epoch.
    pub timestamp_reserva: i64,
}

impl Reserva {
    /// The seat is one of the domain and the user id one of the range drawn from.
    pub open spec fn wf(self) -> bool {
        &&& SEAT_MIN <= self.asiento_id <= SEAT_MAX
        &&& USER_MIN <= self.usuario_id <= USER_MAX
    }
}

/// Where an attempt stands.
#[derive(Clone, Copy, Debug, PartialEq, Eq, Structural)]
pub enum State {
    /// Nothing has been sent yet.
    Start,
    /// The transaction is open.
    Open,
    /// The isolation level is applied and the row is made.
    Ready {
        /// The user id drawn for the row.
        usuario_id: i32,
        /// The instant taken for the row.
        timestamp_reserva: i64,
    },
    /// The row is inserted and awaits the commit.
    Written {
        /// The user id of the inserted row.
        usuario_id: i32,
    },
    /// A step failed inside the open transaction, which is to be rolled back.
    Rollback {
        /// The step that failed.
        stage: Stage,
    },
    /// The commit returned without error.
    Success {
        /// The user id of the committed row.
        usuario_id: i32,
        /// The latency that the attempt contributes to the sum.
        duration_ms: usize,
    },
    /// The attempt failed and its transaction, if one was opened, is closed.
    Fail {
        /// The step that failed.
        stage: Stage,
    },
}

/// What the database, the generator and the clocks answered to the action that was due.
#[derive(Clone, Copy, Debug, PartialEq, Eq, Structural)]
pub enum Event {
    /// The transaction was opened.
    Begun,
    /// The isolation level was applied; with it come the draws for the row.
    IsolationSet {
        /// The user id drawn once the level was applied.
        usuario_id: i32,
        /// The UTC instant read for the row.
        timestamp_reserva: i64,
    },
    /// The row was inserted.
    Inserted,
    /// The commit returned without error.
    Committed {
        /// Whole milliseconds from the attempt's start marker, read just after the commit returned.
        elapsed_ms: u128,
    },
    /// The rollback returned without error.
    RolledBack,
    /// The action returned an error.
    Failed,
}

/// The database round-trip that is due next.
#[derive(Clone, Copy, Debug, PartialEq, Eq, Structural)]
pub enum Action {
    /// Open a transaction on a pooled connection.
    Begin,
    /// Apply the isolation level to the open transaction.
    SetIsolation,
    /// Insert the row.
    Insert(Reserva),
    /// Commit the transaction.
    Commit,
    /// Roll the transaction back.
    Rollback,
    /// Nothing: the attempt has ended as given.
    Finish(Outcome),
}

/// The latency recorded for a reading of the clock: the reading itself, cut
/// to the width of a counter.
pub open spec fn whole_ms(elapsed_ms: u128) -> usize {
    wrapped(elapsed_ms as int)
}

impl Event {
    /// A user id that comes with the event lies in the range drawn from.
    pub open spec fn wf(self) -> bool {
        match self {
            Event::IsolationSet { usuario_id, .. } => USER_MIN <= usuario_id <= USER_MAX,
            _ => true,
        }
    }

    /// Whether the event is a possible answer to the action due in `state`,
    /// given that the action returned without error (`ok`) or with one.
    pub open spec fn answers(self, state: State, ok: bool) -> bool {
        if state.terminal() {
            true
        } else if !ok {
            self is Failed
        } else {
            match state {
                State::Start => self is Begun,
                State::Open => self is IsolationSet,
                State::Ready { .. } => self is Inserted,
                State::Written { .. } => self is Committed,
                _ => self is RolledBack,
            }
        }
    }
}

impl State {
    /// A user id held in the state lies in the range drawn from.
    pub open spec fn wf(self) -> bool {
        match self {
            State::Ready { usuario_id, .. } => USER_MIN <= usuario_id <= USER_MAX,
            State::Written { usuario_id } => USER_MIN <= usuario_id <= USER_MAX,
            State::Success { usuario_id, .. } => USER_MIN <= usuario_id <= USER_MAX,
            _ => true,
        }
    }

    /// Whether the attempt has ended.
    pub open spec fn terminal(self) -> bool {
        self is Success || self is Fail
    }

    /// Whether a transaction is open in this state.
    pub open spec fn in_transaction(self) -> bool {
        self is Open || self is Ready || self is Written || self is Rollback
    }

    /// The state that follows on an event. An error before the transaction
    /// is open, or at the commit, ends the attempt; an error inside the open
    /// transaction leads to a rollback first, and the rollback ends the attempt
    /// whether it succeeds or not, under the step that failed first. An event
    /// that does not answer the action that was due changes nothing.
    pub open spec fn step(self, event: Event) -> State {
        match (self, event) {
            (State::Start, Event::Begun) => State::Open,
            (State::Start, Event::Failed) => State::Fail { stage: Stage::Begin },
            (State::Open, Event::IsolationSet { usuario_id, timestamp_reserva }) => State::Ready {
                usuario_id,
                timestamp_reserva,
            },
            (State::Open, Event::Failed) => State::Rollback { stage: Stage::SetIsolation },
            (State::Ready { usuario_id, .. }, Event::Inserted) => State::Written { usuario_id },
            (State::Ready { .. }, Event::Failed) => State::Rollback { stage: Stage::Insert },
            (State::Written { usuario_id }, Event::Committed { elapsed_ms }) => State::Success {
                usuario_id,
                duration_ms: whole_ms(elapsed_ms),
            },
            (State::Written { .. }, Event::Failed) => State::Fail { stage: Stage::Commit },
            (State::Rollback { stage }, Event::RolledBack) => State::Fail { stage },
            (State::Rollback { stage }, Event::Failed) => State::Fail { stage },
            _ => self,
        }
    }

    /// The action due in this state, for an attempt on the given seat.
    pub open spec fn due(self, asiento_id: i32) -> Action {
        match self {
            State::Start => Action::Begin,
            State::Open => Action::SetIsolation,
            State::Ready { usuario_id, timestamp_reserva } => Action::Insert(
                Reserva { asiento_id, usuario_id, timestamp_reserva },
            ),
            State::Written { .. } => Action::Commit,
            State::Rollback { .. } => Action::Rollback,
            State::Success { usuario_id, duration_ms } => Action::Finish(
                Outcome::Success { asiento_id, usuario_id, duration_ms },
            ),
            State::Fail { stage } => Action::Finish(Outcome::Failure { stage }),
        }
    }

    /// How the attempt ended, once it has.
    pub open spec fn ended(self, asiento_id: i32) -> Option<Outcome> {
        match self {
            State::Success { usuario_id, duration_ms } => Some(
                Outcome::Success { asiento_id, usuario_id, duration_ms },
            ),
            State::Fail { stage } => Some(Outcome::Failure { stage }),
            _ => None,
        }
    }

    /// The most round-trips that are still to come from this state.
    pub open spec fn remaining(self) -> nat {
        match self {
            State::Start => 4,
            State::Open => 3,
            State::Ready { .. } => 2,
            State::Written { .. } => 1,
            State::Rollback { .. } => 1,
            State::Success { .. } => 0,
            State::Fail { .. } => 0,
        }
    }

    /// Moves on from this state on an event.
    pub fn next(self, event: Event) -> (after: State)
        ensures
            after == self.step(event),
    {
        match self {
            State::Start => match event {
                Event::Begun => State::Open,
                Event::Failed => State::Fail { stage: Stage::Begin },
                _ => self,
            },
            State::Open => match event {
                Event::IsolationSet { usuario_id, timestamp_reserva } => State::Ready {
                    usuario_id,
                    timestamp_reserva,
                },
                Event::Failed => State::Rollback { stage: Stage::SetIsolation },
                _ => self,
            },
            State::Ready { usuario_id, .. } => match event {
                Event::Inserted => State::Written { usuario_id },
                Event::Failed => State::Rollback { stage: Stage::Insert },
                _ => self,
            },
            State::Written { usuario_id } => match event {
                Event::Committed { elapsed_ms } => State::Success {
                    usuario_id,
                    duration_ms: to_whole_ms(elapsed_ms),
                },
                Event::Failed => State::Fail { stage: Stage::Commit },
                _ => self,
            },
            State::Rollback { stage } => match event {
                Event::RolledBack => State::Fail { stage },
                Event::Failed => State::Fail { stage },
                _ => self,
            },
            State::Success { .. } => self,
            State::Fail { .. } => self,
        }
    }
}

/// Cuts a reading of the clock to the width of a counter.
pub fn to_whole_ms(elapsed_ms: u128) -> (duration_ms: usize)
    ensures
        duration_ms == whole_ms(elapsed_ms),
{
    let modulus: u128 = usize::MAX as u128 + 1;
    (elapsed_ms % modulus) as usize
}

/// What an attempt is, apart from its start marker.
pub struct AttemptView {
    /// The seat drawn before the transaction was begun.
    pub asiento_id: i32,
    /// Where the attempt stands.
    pub state: State,
}

/// One attempt in progress.
pub struct Attempt {
    started: Instant,
    asiento_id: i32,
    state: State,
}

impl View for Attempt {
    type V = AttemptView;

    closed spec fn view(&self) -> AttemptView {
        AttemptView { asiento_id: self.asiento_id, state: self.state }
    }
}

impl Attempt {
    #[verifier::type_invariant]
    spec fn valid(self) -> bool {
        &&& SEAT_MIN <= self.asiento_id <= SEAT_MAX
        &&& self.state.wf()
    }

    /// The start marker of the attempt.
    pub closed spec fn start_marker(self) -> Instant {
        self.started
    }

    /// Starts an attempt: takes the start marker, then draws the seat. No
    /// transaction is open yet.
    pub fn start() -> (attempt: Attempt)
        ensures
            attempt@.state == State::Start,
            SEAT_MIN <= attempt@.asiento_id <= SEAT_MAX,
    {
        let started = Instant::now();
        let asiento_id = random_in_range(SEAT_MIN, SEAT_MAX);
        Attempt::on_seat(started, asiento_id)
    }

    /// An attempt on the given seat, with the given start marker, before
    /// anything has been sent.
    pub fn on_seat(started: Instant, asiento_id: i32) -> (attempt: Attempt)
        requires
            SEAT_MIN <= asiento_id <= SEAT_MAX,
        ensures
            attempt@ == (AttemptView { asiento_id, state: State::Start }),
            attempt.start_marker() == started,
    {
        Attempt { started, asiento_id, state: State::Start }
    }

    /// The seat that the attempt is made on.
    pub fn asiento_id(&self) -> (seat: i32)
        ensures
            seat == self@.asiento_id,
            SEAT_MIN <= seat <= SEAT_MAX,
    {
        proof {
            use_type_invariant(self);
        }
        self.asiento_id
    }

    /// Where the attempt stands.
    pub fn state(&self) -> (state: State)
        ensures
            state == self@.state,
            state.wf(),
    {
        proof {
            use_type_invariant(self);
        }
        self.state
    }

    /// Whether the attempt has ended.
    pub fn is_finished(&self) -> (finished: bool)
        ensures
            finished == self@.state.terminal(),
    {
        match self.state {
            State::Success { .. } => true,
            State::Fail { .. } => true,
            _ => false,
        }
    }

    /// The round-trip that is due, or the outcome once the attempt has ended.
    /// A row to insert and a success both name a seat of the domain and a
    /// user id of the range drawn from.
    pub fn action(&self) -> (action: Action)
        ensures
            action == self@.state.due(self@.asiento_id),
            match action {
                Action::Insert(reserva) => reserva.wf(),
                Action::Finish(outcome) => outcome.wf(),
                _ => true,
            },
    {
        proof {
            use_type_invariant(self);
        }
        let asiento_id = self.asiento_id;
        match self.state {
            State::Start => Action::Begin,
            State::Open => Action::SetIsolation,
            State::Ready { usuario_id, timestamp_reserva } => Action::Insert(
                Reserva { asiento_id, usuario_id, timestamp_reserva },
            ),
            State::Written { .. } => Action::Commit,
            State::Rollback { .. } => Action::Rollback,
            State::Success { usuario_id, duration_ms } => Action::Finish(
                Outcome::Success { asiento_id, usuario_id, duration_ms },
            ),
            State::Fail { stage } => Action::Finish(Outcome::Failure { stage }),
        }
    }

    /// How the attempt ended: `None` until it has.
    pub fn outcome(&self) -> (outcome: Option<Outcome>)
        ensures
            outcome == self@.state.ended(self@.asiento_id),
            outcome is Some <==> self@.state.terminal(),
            outcome is Some ==> outcome->0.wf(),
    {
        proof {
            use_type_invariant(self);
        }
        match self.state {
            State::Success { usuario_id, duration_ms } => Some(
                Outcome::Success { asiento_id: self.asiento_id, usuario_id, duration_ms },
            ),
            State::Fail { stage } => Some(Outcome::Failure { stage }),
            _ => None,
        }
    }

    /// Moves on from the event. The seat and the start marker stay.
    pub fn apply(&mut self, event: Event)
        requires
            event.wf(),
        ensures
            final(self)@.state == old(self)@.state.step(event),
            final(self)@.asiento_id == old(self)@.asiento_id,
            final(self).start_marker() == old(self).start_marker(),
    {
        proof {
            use_type_invariant(&*self);
        }
        self.state = self.state.next(event);
    }

    /// Moves on from the answer to the action that was due: `ok` says that
    /// it returned without error. What the next state needs beyond that is
    /// read here. Once the isolation level is applied, the user id is drawn
    /// and the UTC clock read for the row; once the commit has returned, the
    /// time since the start marker is read. Nothing is read on an error, nor
    /// once the attempt has ended.
    pub fn advance(&mut self, ok: bool)
        ensures
            exists|event: Event|
                {
                    &&& event.wf()
                    &&& #[trigger] event.answers(old(self)@.state, ok)
                    &&& final(self)@.state == old(self)@.state.step(event)
                },
            final(self)@.asiento_id == old(self)@.asiento_id,
            final(self).start_marker() == old(self).start_marker(),
    {
        let event = if !ok {
            Event::Failed
        } else {
            match self.state {
                State::Start => Event::Begun,
                State::Open => {
                    let usuario_id = random_in_range(USER_MIN, USER_MAX);
                    let timestamp_reserva = utc_now_micros();
                    Event::IsolationSet { usuario_id, timestamp_reserva }
                },
                State::Ready { .. } => Event::Inserted,
                State::Written { .. } => {
                    let elapsed = self.started.elapsed();
                    Event::Committed { elapsed_ms: elapsed.as_millis() }
                },
                _ => Event::RolledBack,
            }
        };
        assert(event.answers(self@.state, ok));
        self.apply(event);
    }
}

} // verus!
