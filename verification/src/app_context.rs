//! The storage-backed context: a `Database` over a pooled SQLite handle, and
//! the `AppContext` handed to request handlers. The pool is the one shared,
//! concurrency-sensitive resource: each operation checks a connection out,
//! uses it exclusively, and returns it on every exit path. Everything the
//! storage engine decides (whether a connection is available, whether an
//! insert or a commit succeeds, what is on disk) comes back through the
//! trusted wrappers below; the control flow around them — authentication
//! gates storage, an aborted batch is rolled back whole, infrastructure
//! errors deny access rather than grant it — is verified.

use vstd::prelude::*;

use r2d2_sqlite::SqliteConnectionManager;

use crate::real_time_pop_request::{
    entry_storable, request_storable, RealTimePopRequest, SubmissionOutcome, MAX_STORABLE_ID,
};

verus! {

#[verifier::external_type_specification]
#[verifier::external_body]
pub struct ExSqliteConnectionManager(SqliteConnectionManager);

/// The pooled handle, held whole behind a trusted boundary: the pool's own
/// type cannot be declared to the verifier, since its generic parameter is
/// bound by a trait of the pooling crate.
#[verifier::external_body]
pub struct SqlitePool {
    pool: r2d2::Pool<SqliteConnectionManager>,
}

/// One connection checked out of the pool, exclusively owned until dropped
/// back; held whole behind a trusted boundary for the same reason as the
/// pool.
#[verifier::external_body]
pub struct SqlitePooledConnection {
    conn: r2d2::PooledConnection<SqliteConnectionManager>,
}

#[verifier::external_type_specification]
#[verifier::external_body]
pub struct ExPoolError(r2d2::Error);

#[verifier::external_type_specification]
#[verifier::external_body]
pub struct ExTransaction<'a>(rusqlite::Transaction<'a>);

#[verifier::external_type_specification]
#[verifier::external_body]
pub struct ExRusqliteError(rusqlite::Error);

/// Relies on r2d2_sqlite's `SqliteConnectionManager::file`: a manager that
/// opens the named database file for each pooled connection.
#[verifier::external_body]
fn manager_for_file(file_name: &str) -> SqliteConnectionManager {
    SqliteConnectionManager::file(file_name)
}

/// Relies on r2d2's `Builder::build`: a connection pool over the manager, or
/// an error when no initial connection could be established. Waiting on a
/// connection is bounded by a short timeout, so an unreachable store denies
/// promptly instead of stalling its caller.
#[verifier::external_body]
fn pool_new(manager: SqliteConnectionManager) -> Result<SqlitePool, r2d2::Error> {
    let built = r2d2::Pool::builder()
        .connection_timeout(std::time::Duration::from_secs(5))
        .build(manager);
    match built {
        Ok(pool) => Ok(SqlitePool { pool }),
        Err(e) => Err(e),
    }
}

/// Relies on r2d2's `Pool::get`: one connection checked out for exclusive
/// use, or an error when the pool timed out. The connection returns to the
/// pool when dropped.
#[verifier::external_body]
fn pool_get(pool: &SqlitePool) -> Result<SqlitePooledConnection, r2d2::Error> {
    match pool.pool.get() {
        Ok(conn) => Ok(SqlitePooledConnection { conn }),
        Err(e) => Err(e),
    }
}

/// Relies on rusqlite's `Connection::execute_batch`: runs the schema
/// statements (tenant table with a unique key column; play-event table with a
/// tenant foreign key), creating the tables only where they do not exist yet.
#[verifier::external_body]
fn create_schema(conn: &SqlitePooledConnection) -> Result<(), rusqlite::Error> {
    conn.conn.execute_batch(
        "begin; \
        create table if not exists api_users ( \
            user_id integer primary key, api_key text not null unique); \
        create table if not exists pops ( \
            pop_id integer primary key, user_id integer not null, player_id integer not null, \
            display_unit_id integer not null, frame_id integer not null, \
            active_screens_count integer not null, ad_copy_id integer not null, \
            schedule_id integer not null, impressions integer not null, \
            interactions integer not null, end_time integer not null, \
            duration_ms integer not null, service_name text not null, \
            service_value text not null, extra_data text not null, \
            foreign key(user_id) references api_users(user_id)); \
        commit;",
    )
}

/// Relies on rusqlite's `Connection::query_row` over `select 1` on the tenant
/// table: `Ok` exactly when a row with this key was found, `Err` (no rows, or
/// a storage fault) otherwise.
#[verifier::external_body]
fn query_user_exists(
    conn: &SqlitePooledConnection,
    api_key: &String,
) -> Result<bool, rusqlite::Error> {
    conn.conn.query_row(
        "select 1 from api_users where api_key = ?1;",
        (api_key,),
        |row| row.get(0),
    )
}

/// Relies on rusqlite's `Connection::execute` over `insert or ignore`: adds a
/// tenant under the key unless one already carries it; `Ok(n)` is the number
/// of rows changed.
#[verifier::external_body]
fn insert_user_ignore(
    conn: &SqlitePooledConnection,
    api_key: &str,
) -> Result<usize, rusqlite::Error> {
    conn.conn.execute("insert or ignore into api_users (api_key) values (?1);", (api_key,))
}

/// Relies on rusqlite's `Connection::transaction` (through the pooled
/// connection): begins a transaction that rolls back unless committed.
#[verifier::external_body]
fn begin_transaction<'a>(
    conn: &'a mut SqlitePooledConnection,
) -> Result<rusqlite::Transaction<'a>, rusqlite::Error> {
    conn.conn.transaction()
}

/// Relies on rusqlite's `Connection::execute` within the open transaction:
/// inserts one play-event row whose tenant column is filled by a sub-query
/// resolving the key at the moment of the statement; `Ok(n)` is the number of
/// rows inserted — zero when no tenant carries the key at insert time.
#[verifier::external_body]
fn insert_pop_row(
    tx: &rusqlite::Transaction<'_>,
    player_id: i64,
    display_unit_id: i64,
    frame_id: i64,
    active_screens_count: i64,
    ad_copy_id: i64,
    schedule_id: i64,
    impressions: i64,
    interactions: i64,
    end_time: i64,
    duration_ms: i64,
    service_name: &String,
    service_value: &String,
    extra_data: &String,
    api_key: &String,
) -> Result<usize, rusqlite::Error> {
    tx.execute(
        "insert into pops (user_id, player_id, display_unit_id, frame_id, \
        active_screens_count, ad_copy_id, schedule_id, impressions, interactions, \
        end_time, duration_ms, service_name, service_value, extra_data) \
        select user_id, ?1, ?2, ?3, ?4, ?5, ?6, ?7, ?8, ?9, ?10, ?11, ?12, ?13 \
        from api_users where api_key = ?14;",
        (player_id, display_unit_id, frame_id, active_screens_count, ad_copy_id, schedule_id,
            impressions, interactions, end_time, duration_ms, service_name, service_value,
            extra_data, api_key),
    )
}

/// Relies on rusqlite's `Transaction::commit`: consumes the transaction;
/// `Ok` exactly when the whole transaction became durable.
#[verifier::external_body]
fn commit_transaction(tx: rusqlite::Transaction<'_>) -> Result<(), rusqlite::Error> {
    tx.commit()
}

/// Relies on rusqlite's `Transaction::rollback`: consumes the transaction and
/// discards every change made under it.
#[verifier::external_body]
fn rollback_transaction(tx: rusqlite::Transaction<'_>) -> Result<(), rusqlite::Error> {
    tx.rollback()
}

/// Relies on rusqlite's `Connection::query_row` over `select count(*)`: how
/// many play-event rows are stored under the tenant with this key; a count is
/// never negative.
#[verifier::external_body]
fn query_pop_count(
    conn: &SqlitePooledConnection,
    api_key: &String,
) -> (r: Result<i64, rusqlite::Error>)
    ensures
        r is Ok ==> r->Ok_0 >= 0,
{
    conn.conn.query_row(
        "select count(*) from pops p join api_users u on u.user_id = p.user_id \
        where u.api_key = ?1;",
        (api_key,),
        |row| row.get(0),
    )
}

/// Relies on rusqlite's `Statement::query_map`: the stored duration column of
/// every play-event row under the tenant with this key, in surrogate-key
/// order.
#[verifier::external_body]
fn query_durations(
    conn: &SqlitePooledConnection,
    api_key: &String,
) -> Result<Vec<i64>, rusqlite::Error> {
    let mut stmt = conn.conn.prepare(
        "select p.duration_ms from pops p join api_users u on u.user_id = p.user_id \
        where u.api_key = ?1 order by p.pop_id;",
    )?;
    let rows = stmt.query_map((api_key,), |row| row.get(0))?;
    rows.collect()
}

/// Why initialisation failed.
#[derive(Clone, Copy, PartialEq, Eq, Structural, Debug)]
pub enum InitError {
    /// No pool could be built or no connection drawn to bootstrap the schema.
    Unavailable,
    /// The schema statements failed to run.
    SchemaFailed,
}

/// The fail-closed reading of a credential lookup: the key counts as known
/// exactly when the lookup both succeeded and found it. A storage fault is
/// indistinguishable from an unknown key — authentication never silently
/// succeeds under infrastructure error.
pub fn fail_closed(lookup: Result<bool, rusqlite::Error>) -> (r: bool)
    ensures
        r == (lookup is Ok && lookup->Ok_0),
{
    match lookup {
        Ok(found) => found,
        Err(_) => false,
    }
}

/// The acceptance rule for one insert of a batch: the statement must have
/// inserted exactly one row. Zero rows means the key resolved to no tenant at
/// the moment of the statement (revoked mid-batch, or never known); an error
/// means the statement itself failed. Either way the batch must abort.
pub fn insert_accepted(outcome: Result<usize, rusqlite::Error>) -> (r: bool)
    ensures
        r == (outcome is Ok && outcome->Ok_0 == 1),
{
    match outcome {
        Ok(changed) => changed == 1,
        Err(_) => false,
    }
}

/// The credential store and event writer over one pooled SQLite handle.
/// Distinct instances are fully isolated; the pool is reference-counted, so a
/// `Database` can be shared by cloning the handle it was built from.
pub struct Database {
    pool: SqlitePool,
}

/// The context handed to request handlers: the database the pops are
/// stored in.
pub struct AppContext {
    pub database: Database,
}

impl Database {
    /// Open (or create) the SQLite database in `file_name` and ensure the
    /// schema exists. Fails with `Unavailable` when no connection could be
    /// drawn, with `SchemaFailed` when the schema statements were refused;
    /// the caller decides whether that is fatal.
    pub fn from_sqlite(file_name: &str) -> Result<Database, InitError> {
        let manager = manager_for_file(file_name);
        let pool = match pool_new(manager) {
            Err(_) => {
                return Err(InitError::Unavailable);
            },
            Ok(p) => p,
        };
        let conn = match pool_get(&pool) {
            Err(_) => {
                return Err(InitError::Unavailable);
            },
            Ok(c) => c,
        };
        match create_schema(&conn) {
            Err(_) => Err(InitError::SchemaFailed),
            Ok(_) => Ok(Database { pool }),
        }
    }

    /// Is this key known? True iff a tenant row with that exact key is
    /// present and the registry could be consulted: any storage failure is
    /// read fail-closed, as "does not exist".
    pub fn user_exists(&self, api_key: &String) -> bool {
        match pool_get(&self.pool) {
            Err(_) => false,
            Ok(conn) => fail_closed(query_user_exists(&conn, api_key)),
        }
    }

    /// Register a tenant under `api_key`. Idempotent: a duplicate key is
    /// ignored, as are storage failures. Only test and provisioning paths
    /// use this.
    pub fn create_user(&self, api_key: &'static str) {
        match pool_get(&self.pool) {
            Err(_) => {},
            Ok(conn) => {
                let _ = insert_user_ignore(&conn, api_key);
            },
        }
    }

    /// Persist one submission atomically: one transaction, one insert per
    /// event in submission order, each resolving the tenant from the
    /// submission's key at the moment of the statement. The first failed or
    /// empty insert — an unstorable value, a key unknown at insert time, or a
    /// storage fault — aborts and rolls back the whole batch. True is
    /// reported only on a successful commit, and only a batch whose every
    /// value is storable is ever committed.
    pub fn store_pop(&self, pops: &RealTimePopRequest) -> (r: bool)
        ensures
            r ==> request_storable(pops@),
    {
        let mut conn = match pool_get(&self.pool) {
            Err(_) => {
                return false;
            },
            Ok(c) => c,
        };
        let tx = match begin_transaction(&mut conn) {
            Err(_) => {
                return false;
            },
            Ok(t) => t,
        };
        if pops.player_id > MAX_STORABLE_ID {
            let _ = rollback_transaction(tx);
            return false;
        }
        let n = pops.pops.len();
        let mut i: usize = 0;
        let mut ok: bool = true;
        while ok && i < n
            invariant
                n == pops.pops.len(),
                i <= n,
                pops.player_id <= MAX_STORABLE_ID,
                ok ==> forall|j: int|
                    0 <= j < i ==> entry_storable(#[trigger] pops@.pops[j]),
            decreases n - i,
        {
            let e = &pops.pops[i];
            if !e.is_storable() {
                ok = false;
            } else {
                let inserted = insert_pop_row(
                    &tx,
                    pops.player_id as i64,
                    e.display_unit_id as i64,
                    e.frame_id as i64,
                    e.active_screens_count as i64,
                    e.ad_copy_id as i64,
                    e.schedule_id as i64,
                    e.impressions as i64,
                    e.interactions as i64,
                    e.end_time,
                    e.duration_ms as i64,
                    &e.service_name,
                    &e.service_value,
                    &e.extra_data,
                    &pops.api_key,
                );
                if !insert_accepted(inserted) {
                    ok = false;
                }
            }
            i += 1;
        }
        if !ok {
            let _ = rollback_transaction(tx);
            return false;
        }
        commit_transaction(tx).is_ok()
    }

    /// Authenticate a submission and persist its whole batch: an unknown key
    /// (or an unreachable registry) denies access with storage untouched; a
    /// batch that could not be committed reports `Failed` after a full
    /// rollback; `Stored` is reported only for a successful commit.
    pub fn authenticate_and_store(&self, pops: &RealTimePopRequest) -> (r: SubmissionOutcome)
        ensures
            r is Stored ==> request_storable(pops@),
    {
        if !self.user_exists(&pops.api_key) {
            SubmissionOutcome::Unauthorized
        } else if self.store_pop(pops) {
            SubmissionOutcome::Stored
        } else {
            SubmissionOutcome::Failed
        }
    }

    /// How many play-event rows are stored under this key, or `None` when
    /// storage could not be consulted.
    pub fn pop_count_for_key(&self, api_key: &String) -> (r: Option<i64>)
        ensures
            r is Some ==> r->0 >= 0,
    {
        match pool_get(&self.pool) {
            Err(_) => None,
            Ok(conn) => match query_pop_count(&conn, api_key) {
                Ok(count) => Some(count),
                Err(_) => None,
            },
        }
    }

    /// The stored duration of every play-event row under this key, oldest
    /// first, or `None` when storage could not be consulted.
    pub fn pop_durations_for_key(&self, api_key: &String) -> Option<Vec<i64>> {
        match pool_get(&self.pool) {
            Err(_) => None,
            Ok(conn) => match query_durations(&conn, api_key) {
                Ok(durations) => Some(durations),
                Err(_) => None,
            },
        }
    }
}

/// Authentication at its simplest: the submission's key is known to the
/// credential store. Fail-closed, as `Database::user_exists` is.
pub fn authenticate(app_context: &AppContext, api_key: &String) -> bool {
    app_context.database.user_exists(api_key)
}

} // verus!
