//! What the driver of a run hands to the database: the size of the
//! connection pool and the text of the two statements of an attempt.

use vstd::prelude::*;
use vstd::string::StringExecFns;
use crate::outside::uppercase_of;

verus! {

/// The most connections that the pool of a run opens at once. Attempts beyond
/// that many wait for a connection.
pub const MAX_CONNECTIONS: u32 = 50;

/// The statement that inserts a reservation. Its three parameters are the
/// seat, the user and the timestamp of the row, in that order.
pub const INSERT_STATEMENT: &'static str =
    "INSERT INTO Reservas (asiento_id, usuario_id, timestamp_reserva) VALUES ($1, $2, $3)";

/// What every statement that applies an isolation level begins with.
pub const ISOLATION_PREFIX: &'static str = "SET TRANSACTION ISOLATION LEVEL ";

/// The statement that applies an isolation level whose name is already in
/// upper case. The name is configuration that the operator is trusted with:
/// it is put into the statement as it is, and the database rejects what it
/// does not know.
pub fn isolation_statement(level: &str) -> (statement: String)
    ensures
        statement@ == ISOLATION_PREFIX@ + level@,
{
    let mut statement = String::from_str(ISOLATION_PREFIX);
    statement.append(level);
    statement
}

/// The statement that applies the isolation level that the operator named,
/// in whatever case: the name goes to the database in upper case.
pub fn isolation_statement_for(nivel_aislamiento: &str) -> (statement: String)
    ensures
        statement@ == ISOLATION_PREFIX@ + uppercase_of(nivel_aislamiento@),
{
    let level = nivel_aislamiento.to_uppercase();
    isolation_statement(level.as_str())
}

} // verus!
