use vstd::prelude::*;
use crate::session::Session;

verus! {

/// rusqlite's connection type, declared so the store can hold one.  A value
/// of it is opaque here; every use goes through a trusted call below.
#[verifier::external_type_specification]
#[verifier::external_body]
pub struct ExConnection(rusqlite::Connection);

/// Ways the durable store can fail.  Each variant carries the backend's own
/// description of what went wrong.
#[derive(Debug)]
pub enum StoreError {
    /// The backing database could not be opened or created.
    Open(String),
    /// The session schema could not be created.
    Schema(String),
    /// A completed session could not be appended.
    Append(String),
}

impl StoreError {
    pub open spec fn spec_detail(self) -> Seq<char> {
        match self {
            StoreError::Open(d) => d@,
            StoreError::Schema(d) => d@,
            StoreError::Append(d) => d@,
        }
    }

    /// The backend's description of the failure.
    pub fn detail(&self) -> (r: String)
        ensures
            r@ == self.spec_detail(),
    {
        match self {
            StoreError::Open(d) => d.clone(),
            StoreError::Schema(d) => d.clone(),
            StoreError::Append(d) => d.clone(),
        }
    }
}

/// Relies on rusqlite's `Connection::open`: opens the SQLite database at
/// `path`, creating the file when it does not exist.  Whether it succeeds
/// depends on the host, so only the shape of the result is stated.
#[verifier::external_body]
fn open_connection(path: &str) -> (r: Result<rusqlite::Connection, String>) {
    match rusqlite::Connection::open(path) {
        Ok(conn) => Ok(conn),
        Err(e) => Err(e.to_string()),
    }
}

/// Relies on rusqlite's `Connection::execute_batch` running one
/// CREATE TABLE IF NOT EXISTS statement: it creates the append-only
/// `sessions` table when absent and, per SQLite's IF NOT EXISTS, leaves an
/// existing table and every row in it untouched.
#[verifier::external_body]
fn create_sessions_table(conn: &rusqlite::Connection) -> (r: Result<(), String>) {
    let outcome = conn.execute_batch(
        "CREATE TABLE IF NOT EXISTS sessions (
            id             INTEGER PRIMARY KEY AUTOINCREMENT,
            start_iso      TEXT NOT NULL,
            minutes        FLOAT NOT NULL
        );",
    );
    match outcome {
        Ok(()) => Ok(()),
        Err(e) => Err(e.to_string()),
    }
}

/// Relies on rusqlite's `Connection::execute` with an INSERT statement: on
/// success exactly one full row (timestamp and minutes) is visible, and
/// SQLite makes the insert atomic — on failure no partial row remains.  The
/// minutes arrive as decimal text; the column's REAL affinity stores them as
/// the numeric value that text denotes.
#[verifier::external_body]
fn insert_session_row(conn: &rusqlite::Connection, start_iso: &str, minutes: &str) -> (r: Result<
    (),
    String,
>) {
    let outcome = conn.execute(
        "INSERT INTO sessions (start_iso, minutes) VALUES (?1, ?2)",
        (start_iso, minutes),
    );
    match outcome {
        Ok(_) => Ok(()),
        Err(e) => Err(e.to_string()),
    }
}

/// The durable append-only log of completed sessions, backed by one SQLite
/// database opened for the lifetime of a run.
pub struct SessionStore {
    conn: rusqlite::Connection,
}

impl SessionStore {
    /// Open or create the backing database at `path` and ensure the session
    /// schema exists.  Idempotent: running it again against the same backing
    /// store keeps the log and every existing row.
    pub fn initialize(path: &str) -> (r: Result<SessionStore, StoreError>)
        ensures
            r is Err ==> (r->Err_0 is Open || r->Err_0 is Schema),
    {
        let conn = match open_connection(path) {
            Ok(conn) => conn,
            Err(detail) => {
                return Err(StoreError::Open(detail));
            },
        };
        match create_sessions_table(&conn) {
            Ok(()) => Ok(SessionStore { conn }),
            Err(detail) => Err(StoreError::Schema(detail)),
        }
    }

    /// Run the idempotent schema step once more on the already opened store.
    pub fn ensure_schema(&self) -> (r: Result<(), StoreError>)
        ensures
            r is Err ==> r->Err_0 is Schema,
    {
        match create_sessions_table(&self.conn) {
            Ok(()) => Ok(()),
            Err(detail) => Err(StoreError::Schema(detail)),
        }
    }

    /// Append one completed session to the log.  Either the full record
    /// becomes visible or nothing does; the log is never updated or pruned.
    pub fn append(&self, session: &Session) -> (r: Result<(), StoreError>)
        requires
            session.wf(),
        ensures
            r is Err ==> r->Err_0 is Append,
    {
        let outcome = insert_session_row(
            &self.conn,
            session.start_iso.as_str(),
            session.minutes_text.as_str(),
        );
        match outcome {
            Ok(()) => Ok(()),
            Err(detail) => Err(StoreError::Append(detail)),
        }
    }
}

} // verus!
