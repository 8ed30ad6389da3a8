//! The SQL tiers: which statement a lookup or a write sends, and what the
//! driver's answer means. Sending the statement is the caller's part.

use vstd::prelude::*;
use crate::dataset::error::Error;
use crate::dataset::memory::Fetched;
use crate::dataset::model::Timestamp;
use crate::dataset::model::id::{as_sql, from_sql, ID, is_sentinel, serial_from_sql, serial_to_sql};
use crate::dataset::model::meta::Meta;

pub mod postgres;
pub mod sqlite;

verus! {

/// A statement with the one value bound to its placeholder.
#[derive(Debug)]
pub struct SelectQuery {
    pub statement: String,
    pub bind: i64,
}

/// A write statement, and whether the store is to be asked afterwards for the
/// identity it assigned.
#[derive(Debug)]
pub struct WriteQuery {
    pub statement: String,
    pub need_id: bool,
}

/// What the driver answered to a lookup.
#[derive(Debug)]
pub enum FetchOutcome<M> {
    /// The row, already mapped to the entity.
    Row(M),
    /// The driver's "row not found".
    RowNotFound,
    /// Any other failure, with the driver's message.
    Failed(String),
}

/// What the driver answered to a write.
#[derive(Debug)]
pub enum ExecOutcome {
    Done,
    RowNotFound,
    Failed(String),
}

/// What follows a write that the driver answered.
#[derive(Debug)]
pub enum WriteStep {
    /// The write is over, with this result.
    Finished(Result<Option<ID>, Error>),
    /// The store is to be asked for the identity of the row it inserted.
    FetchRowId,
}

/// A value bound to a statement.
#[derive(Debug, Clone, Copy, PartialEq, Eq, Structural)]
pub enum SqlArgument {
    Integer(i64),
    Time(Timestamp),
}

pub open spec fn select_text(table: Seq<char>, column: Seq<char>) -> Seq<char> {
    "SELECT * FROM "@ + table + " WHERE "@ + column + " = ? LIMIT 1"@
}

/// `n` placeholders, separated by a comma and a space.
pub open spec fn placeholders(n: nat) -> Seq<char>
    decreases n,
{
    if n == 0 {
        Seq::empty()
    } else if n == 1 {
        "?"@
    } else {
        placeholders((n - 1) as nat) + ", ?"@
    }
}

pub open spec fn insert_text(table: Seq<char>, n: nat) -> Seq<char> {
    "INSERT INTO "@ + table + " VALUES ("@ + placeholders(n) + ")"@
}

pub open spec fn upsert_text(table: Seq<char>, n: nat) -> Seq<char> {
    "INSERT INTO "@ + table + " SET VALUES ("@ + placeholders(n)
        + ") ON CONFLICT(id) DO UPDATE SET VALUES ("@ + placeholders(n) + ") WHERE id = ? LIMIT 1"@
}

/// The statement that asks the store for the identity of the row it inserted last.
pub open spec fn row_id_text() -> Seq<char> {
    "SELECT last_insert_rowid() as id"@
}

/// What a SQL tier answers when it is asked for an entity to change in place.
pub open spec fn no_mutable_access() -> Seq<char> {
    "SQL datasets do not support mutable access"@
}

/// A SQL tier hands out values made from rows, never what it stores: asked for
/// an entity to change in place it refuses, whatever the identity, and touches
/// nothing.
pub fn get_mut<'a, M>(id: ID) -> (r: Result<Option<&'a mut M>, Error>)
    ensures
        r is Err,
        r->Err_0 is Unsupported,
        r->Err_0.message() == no_mutable_access(),
{
    Err(Error::Unsupported(String::from_str("SQL datasets do not support mutable access")))
}

pub fn row_id_statement() -> (r: String)
    ensures
        r@ == row_id_text(),
{
    String::from_str("SELECT last_insert_rowid() as id")
}

/// The statement that reads the one row of `table` whose `column` has the bound value.
pub fn select_statement(table: &str, column: &str) -> (r: String)
    ensures
        r@ == select_text(table@, column@),
{
    let r = String::from_str("SELECT * FROM ").concat(table).concat(" WHERE ").concat(
        column,
    ).concat(" = ? LIMIT 1");
    assert(r@ =~= select_text(table@, column@));
    r
}

pub fn placeholder_list(n: usize) -> (r: String)
    ensures
        r@ == placeholders(n as nat),
{
    let mut r = String::from_str("");
    proof {
        reveal_strlit("");
    }
    assert(r@ =~= placeholders(0));
    let mut i: usize = 0;
    while i < n
        invariant
            0 <= i <= n,
            r@ == placeholders(i as nat),
        decreases n - i,
    {
        if i == 0 {
            r.append("?");
            assert(r@ =~= placeholders(1));
        } else {
            r.append(", ?");
        }
        i += 1;
    }
    r
}

pub fn insert_statement(table: &str, n: usize) -> (r: String)
    ensures
        r@ == insert_text(table@, n as nat),
{
    let list = placeholder_list(n);
    let r = String::from_str("INSERT INTO ").concat(table).concat(" VALUES (").concat(
        list.as_str(),
    ).concat(")");
    assert(r@ =~= insert_text(table@, n as nat));
    r
}

pub fn upsert_statement(table: &str, n: usize) -> (r: String)
    ensures
        r@ == upsert_text(table@, n as nat),
{
    let list = placeholder_list(n);
    let r = String::from_str("INSERT INTO ").concat(table).concat(" SET VALUES (").concat(
        list.as_str(),
    ).concat(") ON CONFLICT(id) DO UPDATE SET VALUES (").concat(list.as_str()).concat(
        ") WHERE id = ? LIMIT 1",
    );
    assert(r@ =~= upsert_text(table@, n as nat));
    r
}

/// What a lookup returns for each answer of the driver: the entity as a value
/// of its own, `None` for "row not found", and a database error with the
/// driver's message for anything else.
pub fn fetched<'a, M>(outcome: FetchOutcome<M>) -> (r: Result<Option<Fetched<'a, M>>, Error>)
    ensures
        match outcome {
            FetchOutcome::Row(m) => r == Ok::<Option<Fetched<'a, M>>, Error>(
                Some(Fetched::Owned(m)),
            ),
            FetchOutcome::RowNotFound => r == Ok::<Option<Fetched<'a, M>>, Error>(None),
            FetchOutcome::Failed(message) => r == Err::<Option<Fetched<'a, M>>, Error>(
                Error::Database(message),
            ),
        },
{
    match outcome {
        FetchOutcome::Row(m) => Ok(Some(Fetched::Owned(m))),
        FetchOutcome::RowNotFound => Ok(None),
        FetchOutcome::Failed(message) => Err(Error::Database(message)),
    }
}

/// What follows a write for each answer of the driver: a failure ends it with
/// a database error, "row not found" ends it with nothing assigned, and success
/// ends it unless the identity of a fresh row is still to be fetched.
pub fn executed(need_id: bool, outcome: ExecOutcome) -> (r: WriteStep)
    ensures
        match outcome {
            ExecOutcome::Done => if need_id {
                r == WriteStep::FetchRowId
            } else {
                r == WriteStep::Finished(Ok(None))
            },
            ExecOutcome::RowNotFound => r == WriteStep::Finished(Ok(None)),
            ExecOutcome::Failed(message) => r == WriteStep::Finished(
                Err(Error::Database(message)),
            ),
        },
{
    match outcome {
        ExecOutcome::Done => if need_id {
            WriteStep::FetchRowId
        } else {
            WriteStep::Finished(Ok(None))
        },
        ExecOutcome::RowNotFound => WriteStep::Finished(Ok(None)),
        ExecOutcome::Failed(message) => WriteStep::Finished(Err(Error::Database(message))),
    }
}

/// The result of an insert once the store has named the row: a local identity
/// with that serial, or a database error with the driver's message.
pub fn inserted(row_id: Result<i64, String>) -> (r: Result<Option<ID>, Error>)
    ensures
        match row_id {
            Ok(column) => r == Ok::<Option<ID>, Error>(Some(ID::Local(from_sql(column)))),
            Err(message) => r == Err::<Option<ID>, Error>(Error::Database(message)),
        },
{
    match row_id {
        Ok(column) => Ok(Some(ID::Local(serial_from_sql(column)))),
        Err(message) => Err(Error::Database(message)),
    }
}

/// The identity of an entity after a write: the one the store assigned, if it
/// assigned one, else the one the entity came with.
pub fn resulting_id(before: ID, assigned: Option<ID>) -> (r: ID)
    ensures
        r == match assigned {
            Some(id) => id,
            None => before,
        },
{
    match assigned {
        Some(id) => id,
        None => before,
    }
}

/// The values that every entity binds after its own: owner, creation time,
/// modification time, and then its identity if that is usable.
pub open spec fn meta_argument_list(meta: Meta) -> Seq<SqlArgument> {
    let head = seq![
        SqlArgument::Integer(as_sql(meta.user_id.spec_best())),
        SqlArgument::Time(meta.time_created),
        SqlArgument::Time(meta.time_modified),
    ];
    if meta.id.spec_valid() {
        head.push(SqlArgument::Integer(as_sql(meta.id.spec_best())))
    } else {
        head
    }
}

/// Appends the envelope's values to the values an entity has bound so far.
pub fn finish_args(args: Vec<SqlArgument>, meta: &Meta) -> (r: Vec<SqlArgument>)
    ensures
        r@ == args@ + meta_argument_list(*meta),
{
    let mut args = args;
    let ghost before = args@;
    args.push(SqlArgument::Integer(meta.user_id.sql()));
    args.push(SqlArgument::Time(meta.time_created));
    args.push(SqlArgument::Time(meta.time_modified));
    match meta.id.best_valid_sql() {
        Some(id) => {
            args.push(SqlArgument::Integer(id));
        },
        None => {},
    }
    assert(args@ =~= before + meta_argument_list(*meta));
    args
}

/// The envelope that a row of an authorative store stands for: both
/// identities are authorative, and the integer columns are read bit for bit.
/// For the rows of a local store see `meta_from_local_row`.
pub fn meta_from_row(
    id: i64,
    user_id: i64,
    time_created: Timestamp,
    time_modified: Timestamp,
    hashcode: i64,
) -> (r: Meta)
    ensures
        r == (Meta {
            id: ID::Authorative(from_sql(id)),
            user_id: ID::Authorative(from_sql(user_id)),
            time_created,
            time_modified,
            hashcode: from_sql(hashcode),
        }),
{
    Meta {
        id: ID::Authorative(serial_from_sql(id)),
        user_id: ID::Authorative(serial_from_sql(user_id)),
        time_created,
        time_modified,
        hashcode: serial_from_sql(hashcode),
    }
}

/// The identity that a row of a local store stands for. The row is filed
/// under `local_id`; its `id` holds the authorative serial once the entity is
/// reconciled. A row with a usable `id` stands for a reconciled identity, any
/// other for a local one.
pub open spec fn local_row_id(local_id: i64, id: Option<i64>) -> ID {
    match id {
        Some(authorative) => if is_sentinel(from_sql(authorative)) {
            ID::Local(from_sql(local_id))
        } else {
            ID::Mutual(from_sql(local_id), from_sql(authorative))
        },
        None => ID::Local(from_sql(local_id)),
    }
}

/// The envelope that a row of a local store stands for. Its owner is read
/// as a local identity: a local store keeps local serials.
pub open spec fn local_row_meta(
    local_id: i64,
    id: Option<i64>,
    user_id: i64,
    time_created: Timestamp,
    time_modified: Timestamp,
    hashcode: i64,
) -> Meta {
    Meta {
        id: local_row_id(local_id, id),
        user_id: ID::Local(from_sql(user_id)),
        time_created,
        time_modified,
        hashcode: from_sql(hashcode),
    }
}

pub fn meta_from_local_row(
    local_id: i64,
    id: Option<i64>,
    user_id: i64,
    time_created: Timestamp,
    time_modified: Timestamp,
    hashcode: i64,
) -> (r: Meta)
    ensures
        r == local_row_meta(local_id, id, user_id, time_created, time_modified, hashcode),
{
    let local = serial_from_sql(local_id);
    let identity = match id {
        Some(column) => {
            let authorative = serial_from_sql(column);
            if authorative == u64::MIN || authorative == u64::MAX {
                ID::Local(local)
            } else {
                ID::Mutual(local, authorative)
            }
        },
        None => ID::Local(local),
    };
    Meta {
        id: identity,
        user_id: ID::Local(serial_from_sql(user_id)),
        time_created,
        time_modified,
        hashcode: serial_from_sql(hashcode),
    }
}

/// What the two identity columns of a local store hold for an identity:
/// first `local_id`, then `id`. Each holds the serial of its kind where the
/// identity has one.
pub open spec fn local_columns(id: ID) -> (Option<i64>, Option<i64>) {
    (
        match id.spec_local() {
            Some(local) => Some(as_sql(local)),
            None => None,
        },
        match id.spec_authorative() {
            Some(authorative) => Some(as_sql(authorative)),
            None => None,
        },
    )
}

pub fn id_columns(id: ID) -> (r: (Option<i64>, Option<i64>))
    ensures
        r == local_columns(id),
{
    let local = match id.local() {
        Some(serial) => Some(serial_to_sql(serial)),
        None => None,
    };
    let authorative = match id.authorative() {
        Some(serial) => Some(serial_to_sql(serial)),
        None => None,
    };
    (local, authorative)
}

/// An envelope that a local store files is read back as it was written: the
/// identity is local, or reconciled and well formed, and the owner is local.
/// The columns hold what `local_columns` says of the identity, and the best
/// serial of the owner.
pub proof fn lemma_local_row_round_trip(meta: Meta)
    requires
        meta.id.spec_local() is Some,
        meta.id.well_formed(),
        meta.user_id is Local,
    ensures
        local_row_meta(
            local_columns(meta.id).0->0,
            local_columns(meta.id).1,
            as_sql(meta.user_id.spec_best()),
            meta.time_created,
            meta.time_modified,
            as_sql(meta.hashcode),
        ) == meta,
{
}

} // verus!
