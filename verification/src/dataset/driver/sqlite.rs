use vstd::prelude::*;
use crate::dataset::driver::{
    get_mut, insert_statement, insert_text, no_mutable_access, select_statement, select_text,
    SelectQuery, upsert_statement, upsert_text, WriteQuery,
};
use crate::dataset::error::Error;
use crate::dataset::model::id::{as_sql, ID, OptionID};

verus! {

/// The local SQL tier. A local store files rows under `local_id` as well as
/// under `id`.
#[derive(Debug, Clone, Copy, PartialEq, Eq, Structural)]
pub struct SqliteDataset {
    pub local: bool,
}

impl SqliteDataset {
    /// A local store.
    pub fn new() -> (r: Self)
        ensures
            r.local,
    {
        SqliteDataset { local: true }
    }

    /// The identities this tier can look up: usable ones, and local ones only
    /// in a local store.
    pub open spec fn reads(&self, id: ID) -> bool {
        id.spec_valid() && (id is Local ==> self.local)
    }

    /// The identities this tier can write: any but a reserved one, and local
    /// ones only in a local store.
    pub open spec fn writes(&self, id: ID) -> bool {
        !(id.spec_into_option() is Reserved) && (id.spec_valid() && id is Local ==> self.local)
    }

    /// Refuses: a SQL tier does not hand out what it stores.
    pub fn get_mut<'a, M>(&mut self, id: ID) -> (r: Result<Option<&'a mut M>, Error>)
        ensures
            *final(self) == *old(self),
            r is Err,
            r->Err_0 is Unsupported,
            r->Err_0.message() == no_mutable_access(),
    {
        get_mut(id)
    }

    /// The column that holds identities of the kind of `id`.
    pub open spec fn id_column(id: ID) -> Seq<char> {
        if id is Local {
            "local_id"@
        } else {
            "id"@
        }
    }

    /// The lookup of one row of `table` by `id`: by `local_id` for a local
    /// identity, by `id` for the others, with the best serial bound.
    pub fn standard_get(&self, table: &str, id: ID) -> (r: SelectQuery)
        requires
            self.reads(id),
        ensures
            r.statement@ == select_text(table@, Self::id_column(id)),
            r.bind == as_sql(id.spec_best()),
    {
        let statement = match id {
            ID::Local(_) => select_statement(table, "local_id"),
            _ => select_statement(table, "id"),
        };
        SelectQuery { statement, bind: id.sql() }
    }

    /// The write of one entity with `num_args` bound values into `table`: a
    /// plain insert where the entity has no identity yet, after which the
    /// store's row identity is wanted; an insert that updates on conflict where
    /// it has one.
    pub fn standard_insert_or_update(&self, table: &str, id: ID, num_args: usize) -> (r:
        WriteQuery)
        requires
            self.writes(id),
        ensures
            r.need_id == (id.spec_into_option() is Null),
            r.statement@ == if id.spec_into_option() is Null {
                insert_text(table@, num_args as nat)
            } else {
                upsert_text(table@, num_args as nat)
            },
    {
        match id.into_option() {
            OptionID::Null => WriteQuery {
                statement: insert_statement(table, num_args),
                need_id: true,
            },
            _ => WriteQuery { statement: upsert_statement(table, num_args), need_id: false },
        }
    }
}

} // verus!
