use vstd::prelude::*;
use crate::dataset::driver::{
    get_mut, no_mutable_access, select_statement, select_text, SelectQuery,
};
use crate::dataset::error::Error;
use crate::dataset::model::id::{as_sql, ID};

verus! {

/// The remote SQL tier. An authorative store knows authorative identities only.
#[derive(Debug, Clone, Copy, PartialEq, Eq, Structural)]
pub struct PostgresDataset {
    pub authorative: bool,
}

impl PostgresDataset {
    /// An authorative store.
    pub fn new() -> (r: Self)
        ensures
            r.authorative,
    {
        PostgresDataset { authorative: true }
    }

    /// The identities this tier can look up: usable ones, and local ones only
    /// in a store that is not authorative.
    pub open spec fn reads(&self, id: ID) -> bool {
        id.spec_valid() && (id is Local ==> !self.authorative)
    }

    /// Refuses: a SQL tier does not hand out what it stores.
    pub fn get_mut<'a, M>(&mut self, id: ID) -> (r: Result<Option<&'a mut M>, Error>)
        ensures
            *final(self) == *old(self),
            r is Err,
            r->Err_0 is Unsupported,
            r->Err_0.message() == no_mutable_access(),
    {
        get_mut(id)
    }

    /// The column that holds identities of the kind of `id`.
    pub open spec fn id_column(id: ID) -> Seq<char> {
        if id is Local {
            "local_id"@
        } else {
            "id"@
        }
    }

    /// The lookup of one row of `table` by `id`: by `local_id` for a local
    /// identity, by `id` for the others, with the best serial bound.
    pub fn standard_get(&self, table: &str, id: ID) -> (r: SelectQuery)
        requires
            self.reads(id),
        ensures
            r.statement@ == select_text(table@, Self::id_column(id)),
            r.bind == as_sql(id.spec_best()),
    {
        let statement = match id {
            ID::Local(_) => select_statement(table, "local_id"),
            _ => select_statement(table, "id"),
        };
        SelectQuery { statement, bind: id.sql() }
    }
}

} // verus!
