use simulador_reservas::driver::{
    isolation_statement, isolation_statement_for, INSERT_STATEMENT, ISOLATION_PREFIX,
    MAX_CONNECTIONS,
};
use simulador_reservas::summary::{decimal_string, mean_ms, summary_line};

#[test]
fn mean_is_the_truncated_quotient() {
    assert_eq!(mean_ms(2, 7), 3);
    assert_eq!(mean_ms(1, 12), 12);
    assert_eq!(mean_ms(3, 2), 0);
    assert_eq!(mean_ms(10, 1999), 199);
    assert_eq!(mean_ms(1, usize::MAX), usize::MAX);
}

#[test]
fn mean_without_successes_is_zero() {
    assert_eq!(mean_ms(0, 0), 0);
    assert_eq!(mean_ms(0, 500), 0);
    assert_eq!(mean_ms(0, usize::MAX), 0);
}

#[test]
fn mean_is_exact_beyond_what_a_double_holds() {
    let large: usize = (1 << 53) + 1;
    assert_eq!(mean_ms(1, large), large);
}

#[test]
fn decimal_string_writes_single_digits() {
    for (n, text) in ["0", "1", "2", "3", "4", "5", "6", "7", "8", "9"].iter().enumerate() {
        assert_eq!(decimal_string(n), *text);
    }
}

#[test]
fn decimal_string_writes_longer_numbers() {
    assert_eq!(decimal_string(10), "10");
    assert_eq!(decimal_string(99), "99");
    assert_eq!(decimal_string(100), "100");
    assert_eq!(decimal_string(9_999), "9999");
    assert_eq!(decimal_string(1_020_304), "1020304");
    assert_eq!(decimal_string(usize::MAX), format!("{}", usize::MAX));
}

#[test]
fn summary_line_has_five_fields_and_a_quoted_level() {
    assert_eq!(summary_line(50, "READ COMMITTED", (8, 42, 1234)), "50,\"READ COMMITTED\",8,42,154");
}

#[test]
fn summary_line_keeps_the_level_as_given() {
    assert_eq!(summary_line(3, "serializable", (1, 2, 9)), "3,\"serializable\",1,2,9");
    assert_eq!(summary_line(3, "", (1, 2, 9)), "3,\"\",1,2,9");
    assert_eq!(summary_line(2, "a\"b,c", (2, 0, 5)), "2,\"a\"b,c\",2,0,2");
}

#[test]
fn summary_line_of_a_single_success() {
    assert_eq!(summary_line(1, "READ COMMITTED", (1, 0, 17)), "1,\"READ COMMITTED\",1,0,17");
}

#[test]
fn summary_line_of_an_empty_run() {
    assert_eq!(summary_line(0, "REPEATABLE READ", (0, 0, 0)), "0,\"REPEATABLE READ\",0,0,0");
}

#[test]
fn summary_line_of_a_run_that_only_failed() {
    assert_eq!(summary_line(10, "READ COMMITTED", (0, 10, 0)), "10,\"READ COMMITTED\",0,10,0");
}

#[test]
fn isolation_statement_appends_the_level() {
    assert_eq!(ISOLATION_PREFIX, "SET TRANSACTION ISOLATION LEVEL ");
    assert_eq!(isolation_statement("SERIALIZABLE"), "SET TRANSACTION ISOLATION LEVEL SERIALIZABLE");
    assert_eq!(isolation_statement("mixed Case"), "SET TRANSACTION ISOLATION LEVEL mixed Case");
    assert_eq!(isolation_statement(""), "SET TRANSACTION ISOLATION LEVEL ");
}

#[test]
fn isolation_statement_for_sends_the_level_in_upper_case() {
    assert_eq!(
        isolation_statement_for("read committed"),
        "SET TRANSACTION ISOLATION LEVEL READ COMMITTED"
    );
    assert_eq!(
        isolation_statement_for("Repeatable Read"),
        "SET TRANSACTION ISOLATION LEVEL REPEATABLE READ"
    );
    assert_eq!(
        isolation_statement_for("SERIALIZABLE"),
        "SET TRANSACTION ISOLATION LEVEL SERIALIZABLE"
    );
    assert_eq!(isolation_statement_for("niño"), "SET TRANSACTION ISOLATION LEVEL NIÑO");
}

#[test]
fn insert_statement_binds_seat_user_and_timestamp() {
    assert_eq!(
        INSERT_STATEMENT,
        "INSERT INTO Reservas (asiento_id, usuario_id, timestamp_reserva) VALUES ($1, $2, $3)"
    );
}

#[test]
fn pool_holds_fifty_connections_at_most() {
    assert_eq!(MAX_CONNECTIONS, 50);
}
