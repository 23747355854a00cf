use simulador_reservas::outcome::{Outcome, Stage};
use simulador_reservas::resultados::Resultados;

fn success(asiento_id: i32, duration_ms: usize) -> Outcome {
    Outcome::Success { asiento_id, usuario_id: 100 + asiento_id, duration_ms }
}

fn failure(stage: Stage) -> Outcome {
    Outcome::Failure { stage }
}

#[test]
fn new_accumulator_is_all_zero() {
    assert_eq!(Resultados::new().snapshot(), (0, 0, 0));
}

#[test]
fn record_success_counts_one_and_adds_latency() {
    let mut r = Resultados::new();
    r.record_success(12);
    assert_eq!(r.snapshot(), (1, 0, 12));
    r.record_success(30);
    assert_eq!(r.snapshot(), (2, 0, 42));
}

#[test]
fn record_success_of_zero_latency_still_counts() {
    let mut r = Resultados::new();
    r.record_success(0);
    assert_eq!(r.snapshot(), (1, 0, 0));
}

#[test]
fn record_failure_counts_one_and_adds_no_latency() {
    let mut r = Resultados::new();
    r.record_success(5);
    r.record_failure();
    r.record_failure();
    assert_eq!(r.snapshot(), (1, 2, 5));
}

#[test]
fn record_dispatches_on_the_outcome() {
    let mut r = Resultados::new();
    r.record(&success(3, 8));
    assert_eq!(r.snapshot(), (1, 0, 8));
    r.record(&failure(Stage::Insert));
    assert_eq!(r.snapshot(), (1, 1, 8));
    r.record(&failure(Stage::Begin));
    r.record(&failure(Stage::SetIsolation));
    r.record(&failure(Stage::Commit));
    assert_eq!(r.snapshot(), (1, 4, 8));
}

#[test]
fn summed_latency_wraps_like_a_counter() {
    let mut r = Resultados::new();
    r.record_success(usize::MAX);
    r.record_success(3);
    assert_eq!(r.snapshot(), (2, 0, 2));
}

#[test]
fn snapshot_read_twice_gives_the_same_triple() {
    let mut r = Resultados::new();
    r.record_success(17);
    r.record_failure();
    let first = r.snapshot();
    let second = r.snapshot();
    assert_eq!(first, second);
    assert_eq!(first, (1, 1, 17));
}

#[test]
fn tally_of_nothing_is_all_zero() {
    assert_eq!(Resultados::tally(&Vec::new()).snapshot(), (0, 0, 0));
}

#[test]
fn tally_counts_every_outcome_once() {
    let outcomes = vec![
        success(1, 10),
        failure(Stage::Insert),
        success(2, 25),
        failure(Stage::Begin),
        failure(Stage::Commit),
    ];
    let (exitosas, fallidas, tiempos_ms) = Resultados::tally(&outcomes).snapshot();
    assert_eq!((exitosas, fallidas, tiempos_ms), (2, 3, 35));
    assert_eq!(exitosas + fallidas, outcomes.len());
}

#[test]
fn tally_agrees_with_recording_one_by_one() {
    let outcomes = vec![success(4, 7), failure(Stage::SetIsolation), success(9, 1)];
    let mut r = Resultados::new();
    for outcome in &outcomes {
        r.record(outcome);
    }
    assert_eq!(Resultados::tally(&outcomes).snapshot(), r.snapshot());
}

#[test]
fn tally_of_failures_only_has_no_latency() {
    let outcomes = vec![failure(Stage::Insert); 10];
    assert_eq!(Resultados::tally(&outcomes).snapshot(), (0, 10, 0));
}

#[test]
fn outcome_knows_whether_it_committed() {
    assert!(success(1, 0).is_success());
    assert!(!failure(Stage::Commit).is_success());
}

#[test]
fn default_accumulator_is_all_zero() {
    assert_eq!(Resultados::default().snapshot(), (0, 0, 0));
}
