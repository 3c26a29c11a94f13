use vstd::prelude::*;

use crate::entry::{Entry, EntryModel};
use crate::errors::AppError;

verus! {

#[verifier::external_type_specification]
#[verifier::external_body]
pub struct ExConnection(rusqlite::Connection);

#[verifier::external_type_specification]
#[verifier::external_body]
pub struct ExSqliteError(rusqlite::Error);

#[verifier::external_type_specification]
#[verifier::external_body]
pub struct ExPoolError(r2d2::Error);

/// A shared handle to the bounded pool of reusable storage connections.
/// `r2d2::Pool` itself cannot be declared to Verus (its type parameter is
/// bound by an outside trait), so this struct holds it opaquely: Verus
/// sees nothing inside, and every use goes through the trusted items
/// below.
#[verifier::external_body]
pub struct DbPool {
    pool: r2d2::Pool<r2d2_sqlite::SqliteConnectionManager>,
}

/// A connection borrowed from the pool. Dropping it hands the connection
/// back to the pool; that happens when the borrowing scope exits, on
/// success and failure paths alike.
#[verifier::external_body]
pub struct PooledConn {
    conn: r2d2::PooledConnection<r2d2_sqlite::SqliteConnectionManager>,
}

/// Relies on `r2d2_sqlite::SqliteConnectionManager::file` and
/// `r2d2::Builder`: builds a pool of at most `max_conns` connections to
/// the storage file at `path`; acquiring from it waits at most
/// `timeout_ms` milliseconds. `r2d2::Builder::max_size` panics on zero
/// and `r2d2::Builder::connection_timeout` panics on a zero duration;
/// the preconditions rule both out. Whether the pool can be built depends
/// on the file, so nothing is promised of the outcome.
#[verifier::external_body]
fn build_pool(path: &str, max_conns: u32, timeout_ms: u64) -> Result<DbPool, r2d2::Error>
    requires
        max_conns >= 1,
        timeout_ms >= 1,
{
    let manager = r2d2_sqlite::SqliteConnectionManager::file(path);
    let pool = r2d2::Pool::builder().max_size(max_conns).connection_timeout(
        std::time::Duration::from_millis(timeout_ms),
    ).build(manager)?;
    Ok(DbPool { pool })
}

/// Relies on `r2d2::Pool::get`: waits for at most the pool's configured
/// timeout, then hands out a pooled connection or reports that none could
/// be supplied. Which of the two happens depends on the pool's state and
/// the backing storage, so nothing is promised of the outcome.
#[verifier::external_body]
fn pool_get(pool: &DbPool) -> Result<PooledConn, r2d2::Error> {
    Ok(PooledConn { conn: pool.pool.get()? })
}

/// Relies on `r2d2::PooledConnection`'s `Deref` impl: a pooled connection
/// is a smart pointer around the managed `rusqlite::Connection`.
#[verifier::external_body]
fn conn_ref(conn: &PooledConn) -> &rusqlite::Connection {
    &conn.conn
}

/// Relies on `rusqlite::Connection::execute`: runs the given statement
/// and reports the number of rows it changed, or the storage engine's
/// error. The precondition pins the statement to the one idempotent
/// schema-creation DDL, so no other statement can reach the engine
/// through this wrapper. The outcome depends on what is on disk, so
/// nothing is promised of it.
#[verifier::external_body]
fn run_sql(conn: &rusqlite::Connection, sql: &str) -> Result<usize, rusqlite::Error>
    requires
        sql@
            == "CREATE TABLE IF NOT EXISTS todo (\n        id INTEGER PRIMARY KEY AUTOINCREMENT,\n        text TEXT NOT NULL\n        )"@,
{
    conn.execute(sql, [])
}

/// Relies on `rusqlite::Connection::prepare` and
/// `rusqlite::Statement::query_map`: runs the given statement and
/// collects each row as its first two columns, an integer and a text.
/// The precondition pins the statement to the one fixed read, so nothing
/// else, in particular no write, can reach the engine through this
/// wrapper. The outer error is a prepare or bind failure; an inner one is
/// that row's decode failure. The rows depend on what is on disk, so
/// nothing is promised of them.
#[verifier::external_body]
fn query_rows(
    conn: &rusqlite::Connection,
    sql: &str,
) -> Result<Vec<Result<(u32, String), rusqlite::Error>>, rusqlite::Error>
    requires
        sql@ == "SELECT id,text FROM todo"@,
{
    let mut stmt = conn.prepare(sql)?;
    let mapped = stmt.query_map([], |row| Ok((row.get(0)?, row.get(1)?)))?;
    Ok(mapped.collect())
}

impl DbPool {
    /// Constructs the pool over the storage file at `path`, with at most
    /// `max_conns` connections and a bounded acquisition timeout. Meant to
    /// run once at startup; a failure here means the storage is not known
    /// to be reachable, which callers must treat as fatal before serving.
    pub fn open(path: &str, max_conns: u32, timeout_ms: u64) -> (r: Result<DbPool, AppError>)
        requires
            max_conns >= 1,
            timeout_ms >= 1,
        ensures
            r matches Err(e) ==> e == AppError::ConnectionPool,
    {
        match build_pool(path, max_conns, timeout_ms) {
            Ok(pool) => Ok(pool),
            Err(_) => Err(AppError::ConnectionPool),
        }
    }

    /// Borrows a connection from the pool, waiting at most the pool's
    /// configured timeout. Exhaustion and an unreachable backend both
    /// surface as a connection-pool error.
    pub fn acquire(&self) -> (r: Result<PooledConn, AppError>)
        ensures
            r matches Err(e) ==> e == AppError::ConnectionPool,
    {
        match pool_get(self) {
            Ok(conn) => Ok(conn),
            Err(_) => Err(AppError::ConnectionPool),
        }
    }
}

/// Turns raw rows into entries. All rows must decode for the listing to
/// succeed: one bad row aborts the whole listing with a query error, so a
/// partial result is never returned.
pub fn collect_entries(rows: Vec<Result<(u32, String), rusqlite::Error>>) -> (r: Result<
    Vec<Entry>,
    AppError,
>)
    ensures
        r is Ok <==> (forall|i: int| 0 <= i < rows@.len() ==> rows@[i] is Ok),
        r matches Ok(es) ==> es@.len() == rows@.len() && (forall|i: int|
            0 <= i < rows@.len() ==> es@[i]@ == (EntryModel {
                id: rows@[i]->Ok_0.0,
                text: rows@[i]->Ok_0.1@,
            })),
        r matches Err(e) ==> e == AppError::Query,
{
    let mut entries: Vec<Entry> = Vec::new();
    let mut i: usize = 0;
    while i < rows.len()
        invariant
            i <= rows@.len(),
            entries@.len() == i,
            forall|j: int| 0 <= j < i ==> rows@[j] is Ok,
            forall|j: int|
                0 <= j < i ==> entries@[j]@ == (EntryModel {
                    id: rows@[j]->Ok_0.0,
                    text: rows@[j]->Ok_0.1@,
                }),
        decreases rows@.len() - i,
    {
        match &rows[i] {
            Ok(pair) => {
                let e = Entry { id: pair.0, text: pair.1.clone() };
                entries.push(e);
            },
            Err(_) => {
                return Err(AppError::Query);
            },
        }
        i = i + 1;
    }
    Ok(entries)
}

/// Runs the fixed read statement over the todo table and maps each row to
/// an entry. What comes back depends on what is in storage; whatever that
/// is, a failure is always reported as a query error and a partial listing
/// is never returned.
pub fn list_entries(conn: &rusqlite::Connection) -> (r: Result<Vec<Entry>, AppError>)
    ensures
        r matches Err(e) ==> e == AppError::Query,
{
    match query_rows(conn, "SELECT id,text FROM todo") {
        Ok(rows) => collect_entries(rows),
        Err(_) => Err(AppError::Query),
    }
}

/// Borrows a connection from the pool and lists the entries with it. The
/// connection goes back to the pool when this call returns, on success and
/// failure alike.
pub fn list_entries_from_pool(pool: &DbPool) -> (r: Result<Vec<Entry>, AppError>)
    ensures
        r matches Err(e) ==> (e == AppError::ConnectionPool || e == AppError::Query),
{
    match pool.acquire() {
        Ok(conn) => list_entries(conn_ref(&conn)),
        Err(e) => Err(e),
    }
}

/// Issues the one idempotent statement that creates the todo table if it
/// is absent: an auto-incrementing integer key and a required text column.
/// A failure here means the schema is not known to be good, which callers
/// must treat as fatal before serving.
pub fn init_schema(conn: &rusqlite::Connection) -> (r: Result<(), AppError>)
    ensures
        r matches Err(e) ==> e == AppError::Query,
{
    let outcome = run_sql(
        conn,
        "CREATE TABLE IF NOT EXISTS todo (\n        id INTEGER PRIMARY KEY AUTOINCREMENT,\n        text TEXT NOT NULL\n        )",
    );
    match outcome {
        Ok(_) => Ok(()),
        Err(_) => Err(AppError::Query),
    }
}

/// Borrows a connection from the pool and ensures the schema with it.
pub fn init_schema_from_pool(pool: &DbPool) -> (r: Result<(), AppError>)
    ensures
        r matches Err(e) ==> (e == AppError::ConnectionPool || e == AppError::Query),
{
    match pool.acquire() {
        Ok(conn) => init_schema(conn_ref(&conn)),
        Err(e) => Err(e),
    }
}

}
