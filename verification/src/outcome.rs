//! How a reservation attempt can end.

use vstd::prelude::*;

verus! {

/// The lowest seat of the contention domain.
pub const SEAT_MIN: i32 = 1;

/// The highest seat of the contention domain.
pub const SEAT_MAX: i32 = 10;

/// The lowest user id that an attempt may draw.
pub const USER_MIN: i32 = 1;

/// The highest user id that an attempt may draw.
pub const USER_MAX: i32 = 9999;

/// The database round-trip at which an attempt failed.
#[derive(Clone, Copy, Debug, PartialEq, Eq, Structural)]
pub enum Stage {
    /// Opening the transaction.
    Begin,
    /// Applying the isolation level.
    SetIsolation,
    /// Inserting the reservation row.
    Insert,
    /// Committing the transaction.
    Commit,
}

/// The terminal classification of one attempt.
#[derive(Clone, Copy, Debug, PartialEq, Eq, Structural)]
pub enum Outcome {
    /// The transaction reached a completed commit.
    Success {
        /// The seat that was reserved.
        asiento_id: i32,
        /// The user the seat was reserved for.
        usuario_id: i32,
        /// Whole milliseconds from the attempt's start to just after the commit returned.
        duration_ms: usize,
    },
    /// The attempt did not reach a completed commit.
    Failure {
        /// The round-trip whose error ended the attempt.
        stage: Stage,
    },
}

impl Outcome {
    /// A success names a seat of the domain and a user id of the range drawn from.
    pub open spec fn wf(self) -> bool {
        match self {
            Outcome::Success { asiento_id, usuario_id, .. } => {
                &&& SEAT_MIN <= asiento_id <= SEAT_MAX
                &&& USER_MIN <= usuario_id <= USER_MAX
            },
            Outcome::Failure { .. } => true,
        }
    }

    /// Whether the attempt committed.
    pub open spec fn committed(&self) -> bool {
        self is Success
    }

    /// Whether the attempt committed.
    #[verifier::when_used_as_spec(committed)]
    pub fn is_success(&self) -> (yes: bool)
        ensures
            yes == self.committed(),
    {
        match self {
            Outcome::Success { .. } => true,
            Outcome::Failure { .. } => false,
        }
    }
}

/// How many of the outcomes are successes.
pub open spec fn successes(outcomes: Seq<Outcome>) -> nat
    decreases outcomes.len(),
{
    if outcomes.len() == 0 {
        0
    } else {
        successes(outcomes.drop_last()) + if outcomes.last() is Success {
            1nat
        } else {
            0nat
        }
    }
}

/// How many of the outcomes are failures.
pub open spec fn failures(outcomes: Seq<Outcome>) -> nat
    decreases outcomes.len(),
{
    if outcomes.len() == 0 {
        0
    } else {
        failures(outcomes.drop_last()) + if outcomes.last() is Failure {
            1nat
        } else {
            0nat
        }
    }
}

/// The latencies of the successes among the outcomes, summed without bound.
pub open spec fn total_ms(outcomes: Seq<Outcome>) -> nat
    decreases outcomes.len(),
{
    if outcomes.len() == 0 {
        0
    } else {
        total_ms(outcomes.drop_last()) + match outcomes.last() {
            Outcome::Success { duration_ms, .. } => duration_ms as nat,
            Outcome::Failure { .. } => 0nat,
        }
    }
}

} // verus!
