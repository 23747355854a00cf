//! The accumulator of a run: how many attempts committed, how many failed,
//! and the summed latency of those that committed.

use vstd::prelude::*;
use vstd::arithmetic::div_mod::{lemma_add_mod_noop, lemma_mod_add_multiples_vanish, lemma_small_mod};
use crate::outcome::{failures, successes, total_ms, Outcome};

verus! {

/// The number of values a counter can hold.
pub open spec fn counter_modulus() -> int {
    usize::MAX + 1
}

/// The value a counter holds once it has been raised to `n` from zero: a
/// counter that passes its largest value starts again at zero.
pub open spec fn wrapped(n: int) -> usize {
    (n % counter_modulus()) as usize
}

/// Three counters, each only ever incremented.
///
/// Recording takes the accumulator exclusively, so every record is one
/// indivisible step and no lock is involved: attempts hand their outcomes to
/// the driver, which records them once all attempts have ended.
#[derive(Debug)]
pub struct Resultados {
    exitosas: usize,
    fallidas: usize,
    tiempos_ms: usize,
}

impl View for Resultados {
    type V = (usize, usize, usize);

    /// The triple `(exitosas, fallidas, tiempos_ms)`.
    closed spec fn view(&self) -> (usize, usize, usize) {
        (self.exitosas, self.fallidas, self.tiempos_ms)
    }
}

/// Adding within a counter agrees with adding without bound and wrapping.
proof fn lemma_wrapping_add_is_wrapped(x: usize, y: usize)
    ensures
        vstd::wrapping::usize_specs::wrapping_add(x, y) == wrapped(x + y),
{
    let m = counter_modulus();
    if x + y > usize::MAX {
        lemma_mod_add_multiples_vanish(x + y - m, m);
        lemma_small_mod((x + y - m) as nat, m as nat);
    } else {
        lemma_small_mod((x + y) as nat, m as nat);
    }
}

impl Default for Resultados {
    /// An accumulator with all three counters at zero.
    fn default() -> (fresh: Resultados)
        ensures
            fresh@ == (0usize, 0usize, 0usize),
    {
        Resultados::new()
    }
}

impl Resultados {
    /// Attempts that reached a successful commit.
    pub open spec fn exitosas(self) -> usize {
        self@.0
    }

    /// Attempts that failed at any point.
    pub open spec fn fallidas(self) -> usize {
        self@.1
    }

    /// Summed latency of the successful attempts, in whole milliseconds.
    pub open spec fn tiempos_ms(self) -> usize {
        self@.2
    }

    /// The accumulator after one more success of the given latency.
    pub open spec fn after_success(self, duration_ms: usize) -> (usize, usize, usize) {
        (wrapped(self.exitosas() + 1), self.fallidas(), wrapped(self.tiempos_ms() + duration_ms))
    }

    /// The accumulator after one more failure.
    pub open spec fn after_failure(self) -> (usize, usize, usize) {
        (self.exitosas(), wrapped(self.fallidas() + 1), self.tiempos_ms())
    }

    /// The accumulator after one more attempt that ended as given.
    pub open spec fn after(self, outcome: Outcome) -> (usize, usize, usize) {
        match outcome {
            Outcome::Success { duration_ms, .. } => self.after_success(duration_ms),
            Outcome::Failure { .. } => self.after_failure(),
        }
    }

    /// An accumulator with all three counters at zero.
    pub fn new() -> (fresh: Resultados)
        ensures
            fresh@ == (0usize, 0usize, 0usize),
    {
        Resultados { exitosas: 0, fallidas: 0, tiempos_ms: 0 }
    }

    /// Counts one success and adds its latency to the sum.
    pub fn record_success(&mut self, duration_ms: usize)
        ensures
            final(self)@ == old(self).after_success(duration_ms),
    {
        proof {
            lemma_wrapping_add_is_wrapped(self.exitosas, 1);
            lemma_wrapping_add_is_wrapped(self.tiempos_ms, duration_ms);
        }
        self.exitosas = self.exitosas.wrapping_add(1);
        self.tiempos_ms = self.tiempos_ms.wrapping_add(duration_ms);
    }

    /// Counts one failure. A failure adds no latency.
    pub fn record_failure(&mut self)
        ensures
            final(self)@ == old(self).after_failure(),
    {
        proof {
            lemma_wrapping_add_is_wrapped(self.fallidas, 1);
        }
        self.fallidas = self.fallidas.wrapping_add(1);
    }

    /// Counts one attempt by how it ended: a success with its latency, or a failure.
    pub fn record(&mut self, outcome: &Outcome)
        ensures
            final(self)@ == old(self).after(*outcome),
    {
        match outcome {
            Outcome::Success { duration_ms, .. } => self.record_success(*duration_ms),
            Outcome::Failure { .. } => self.record_failure(),
        }
    }

    /// The triple `(exitosas, fallidas, tiempos_ms)` as it stands. Reading
    /// changes nothing, so a second reading gives the same triple.
    pub fn snapshot(&self) -> (triple: (usize, usize, usize))
        ensures
            triple == self@,
    {
        (self.exitosas, self.fallidas, self.tiempos_ms)
    }

    /// The accumulator of a run whose attempts ended as given, counted from zero.
    pub fn tally(outcomes: &Vec<Outcome>) -> (sum: Resultados)
        ensures
            sum.exitosas() == successes(outcomes@),
            sum.fallidas() == failures(outcomes@),
            sum.tiempos_ms() == wrapped(total_ms(outcomes@) as int),
            sum.exitosas() + sum.fallidas() == outcomes@.len(),
    {
        let mut sum = Resultados::new();
        let mut i: usize = 0;
        proof {
            lemma_small_mod(0, counter_modulus() as nat);
        }
        while i < outcomes.len()
            invariant
                0 <= i <= outcomes@.len(),
                sum.exitosas() == successes(outcomes@.take(i as int)),
                sum.fallidas() == failures(outcomes@.take(i as int)),
                sum.tiempos_ms() == wrapped(total_ms(outcomes@.take(i as int)) as int),
                sum.exitosas() + sum.fallidas() == i,
            decreases outcomes@.len() - i,
        {
            let ghost before = outcomes@.take(i as int);
            let ghost now = outcomes@.take(i + 1);
            proof {
                assert(now.drop_last() =~= before);
                let m = counter_modulus();
                lemma_small_mod((sum.exitosas() + 1) as nat, m as nat);
                lemma_small_mod((sum.fallidas() + 1) as nat, m as nat);
                if let Outcome::Success { duration_ms, .. } = outcomes@[i as int] {
                    lemma_add_mod_noop(total_ms(before) as int, duration_ms as int, m);
                    lemma_add_mod_noop(sum.tiempos_ms() as int, duration_ms as int, m);
                    lemma_small_mod(sum.tiempos_ms() as nat, m as nat);
                }
            }
            sum.record(&outcomes[i]);
            i = i + 1;
        }
        proof {
            assert(outcomes@.take(i as int) =~= outcomes@);
        }
        sum
    }
}

} // verus!
