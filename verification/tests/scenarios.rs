use simulador_reservas::attempt::{Action, Attempt};
use simulador_reservas::driver::isolation_statement_for;
use simulador_reservas::outcome::Outcome;
use simulador_reservas::resultados::Resultados;
use simulador_reservas::summary::summary_line;

/// A table with a uniqueness constraint on the seat, as the database keeps it.
struct Reservas {
    taken: [bool; 11],
    statements: usize,
}

impl Reservas {
    fn empty() -> Reservas {
        Reservas { taken: [false; 11], statements: 0 }
    }

    fn full() -> Reservas {
        let mut table = Reservas::empty();
        for seat in 1..=10 {
            table.taken[seat] = true;
        }
        table
    }

    fn insert(&mut self, seat: i32) -> bool {
        let free = !self.taken[seat as usize];
        self.taken[seat as usize] = true;
        free
    }
}

fn known_level(statement: &str) -> bool {
    [
        "SET TRANSACTION ISOLATION LEVEL READ UNCOMMITTED",
        "SET TRANSACTION ISOLATION LEVEL READ COMMITTED",
        "SET TRANSACTION ISOLATION LEVEL REPEATABLE READ",
        "SET TRANSACTION ISOLATION LEVEL SERIALIZABLE",
    ]
    .contains(&statement)
}

fn run_attempt(table: &mut Reservas, statement: &str) -> Outcome {
    let mut attempt = Attempt::start();
    loop {
        let ok = match attempt.action() {
            Action::Begin => true,
            Action::SetIsolation => known_level(statement),
            Action::Insert(reserva) => table.insert(reserva.asiento_id),
            Action::Commit => true,
            Action::Rollback => true,
            Action::Finish(outcome) => return outcome,
        };
        table.statements += 1;
        attempt.advance(ok);
    }
}

fn run(usuarios: usize, nivel_aislamiento: &str, table: &mut Reservas) -> (Vec<Outcome>, String) {
    let statement = isolation_statement_for(nivel_aislamiento);
    let mut outcomes = Vec::new();
    for _ in 0..usuarios {
        outcomes.push(run_attempt(table, &statement));
    }
    let resultados = Resultados::tally(&outcomes);
    let line = summary_line(usuarios, nivel_aislamiento, resultados.snapshot());
    (outcomes, line)
}

fn fields(line: &str) -> Vec<String> {
    line.split(',').map(|field| field.to_string()).collect()
}

#[test]
fn one_user_on_an_empty_table_commits() {
    let mut table = Reservas::empty();
    let (outcomes, line) = run(1, "READ COMMITTED", &mut table);
    assert_eq!(outcomes.len(), 1);
    assert!(outcomes[0].is_success());
    let fields = fields(&line);
    assert_eq!(fields.len(), 5);
    assert_eq!(fields[..4].join(","), "1,\"READ COMMITTED\",1,0");
    assert!(fields[4].parse::<u64>().is_ok());
}

#[test]
fn fifty_users_share_ten_seats() {
    let mut table = Reservas::empty();
    let (outcomes, line) = run(50, "READ COMMITTED", &mut table);
    let (exitosas, fallidas, _) = Resultados::tally(&outcomes).snapshot();
    assert!(exitosas <= 10);
    assert_eq!(exitosas + fallidas, 50);
    assert!(line.starts_with("50,\"READ COMMITTED\","));
}

#[test]
fn hundred_users_under_serializable_mostly_fail() {
    let mut table = Reservas::empty();
    let (outcomes, line) = run(100, "SERIALIZABLE", &mut table);
    let (exitosas, fallidas, _) = Resultados::tally(&outcomes).snapshot();
    assert!(exitosas <= 10);
    assert!(fallidas >= 90);
    assert_eq!(exitosas + fallidas, 100);
    let fields = fields(&line);
    assert_eq!(fields[0], "100");
    assert_eq!(fields[1], "\"SERIALIZABLE\"");
    assert!(fields[4].parse::<u64>().is_ok());
}

#[test]
fn ten_users_on_a_full_table_all_fail() {
    let mut table = Reservas::full();
    let (outcomes, line) = run(10, "READ COMMITTED", &mut table);
    assert!(outcomes.iter().all(|outcome| !outcome.is_success()));
    assert_eq!(line, "10,\"READ COMMITTED\",0,10,0");
}

#[test]
fn no_users_send_nothing() {
    let mut table = Reservas::empty();
    let (outcomes, line) = run(0, "read committed", &mut table);
    assert!(outcomes.is_empty());
    assert_eq!(table.statements, 0);
    assert_eq!(line, "0,\"read committed\",0,0,0");
}

#[test]
fn unknown_level_fails_every_attempt_and_keeps_its_casing() {
    let mut table = Reservas::empty();
    let (outcomes, line) = run(4, "Snapshot", &mut table);
    assert!(outcomes.iter().all(|outcome| !outcome.is_success()));
    assert_eq!(line, "4,\"Snapshot\",0,4,0");
}

#[test]
fn lower_case_level_reaches_the_database_in_upper_case() {
    let mut table = Reservas::empty();
    let (outcomes, line) = run(1, "serializable", &mut table);
    assert!(outcomes[0].is_success());
    assert!(line.starts_with("1,\"serializable\",1,0,"));
}

#[test]
fn successes_hold_distinct_seats() {
    let mut table = Reservas::empty();
    let (outcomes, _) = run(200, "READ COMMITTED", &mut table);
    let mut seats = Vec::new();
    for outcome in &outcomes {
        if let Outcome::Success { asiento_id, .. } = outcome {
            assert!(!seats.contains(asiento_id));
            seats.push(*asiento_id);
        }
    }
    assert!(seats.len() <= 10);
    assert_eq!(seats.len(), Resultados::tally(&outcomes).snapshot().0);
}
