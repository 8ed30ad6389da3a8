//! Tiered persistence: one identity model, one entity envelope and one
//! get/put/delete contract over an in-process table, local SQL and remote SQL.

use vstd::prelude::*;
use crate::dataset::memory::{id_of, lookup, with_row, without};

pub mod driver;
pub mod error;
pub mod memory;
pub mod model;
pub mod strategy;

pub use error::Error;
pub use model::id::{
    generate_local_id, init_local_id_generator, try_generate_local_id,
    try_init_local_id_generator, LocalIdGenerator, OptionID, ID,
};
pub use memory::{Fetched, MemoryTable};
pub use model::meta::{
    DatasetFieldEnum, Meta, MetaBuilder, MetaBuilderError, MetaField, MetaModel, MetaModelMut,
};
pub use model::{Hashcode, HashcodeTrait, Timestamp, TimestampTrait};
pub use driver::postgres::PostgresDataset;
pub use driver::sqlite::SqliteDataset;
pub use strategy::{
    DatasetStrategy, DatasetType, DeleteStep, GetStep, PutStep, StrategicDataset,
    StrategicDatasetModel, StrategicDatasetOptions, StrategicOrder,
};

verus! {

/// What one tier offers for one entity type: the three operations, stated over
/// the rows of that type that the tier holds.
///
/// A tier may fail, and says so with an error; nothing is promised of when. A
/// lookup that does not fail reports a miss as `None`. A write or a removal
/// that does not fail has changed the rows as stated; one that fails has left
/// them as they were.
pub trait DatasetModel<DB>: MetaModel {
    /// The rows of this entity type in the tier, oldest first.
    spec fn stored(dataset: &DB) -> Vec<Self>;

    fn dataset_get<'d>(dataset: &'d DB, id: ID) -> (r: Result<Option<Fetched<'d, Self>>, Error>)
        ensures
            r matches Ok(found) ==> (found is Some == lookup(Self::stored(dataset)@, id) is Some)
                && (found is Some ==> Some(found->0.value()) == lookup(Self::stored(dataset)@, id)),
    ;

    /// Writes an entity and returns the identity under which the tier has
    /// stored it. A tier may assign the identity: what is stored is then the
    /// entity under that identity, with its content as it came.
    fn dataset_put(dataset: &mut DB, model: Self) -> (r: Result<ID, Error>)
        ensures
            r matches Ok(id) ==> exists|row: Self|
                id_of(row) == id && row.spec_content()@ == model.spec_content()@ && Self::stored(
                    final(dataset),
                )@ == #[trigger] with_row(Self::stored(old(dataset))@, row),
            r is Err ==> Self::stored(final(dataset))@ == Self::stored(old(dataset))@,
    ;

    fn dataset_delete(dataset: &mut DB, id: ID) -> (r: Result<(), Error>)
        ensures
            r is Ok ==> Self::stored(final(dataset))@ == without(Self::stored(old(dataset))@, id),
            r is Err ==> Self::stored(final(dataset))@ == Self::stored(old(dataset))@,
    ;
}

/// What a tier that keeps its rows at hand offers beside: to take an entity out.
pub trait DatasetModelDirect<DB>: DatasetModel<DB> {
    fn dataset_take(dataset: &mut DB, id: ID) -> (r: Result<Option<Self>, Error>)
        ensures
            r matches Ok(taken) ==> taken == lookup(Self::stored(old(dataset))@, id)
                && Self::stored(final(dataset))@ == without(Self::stored(old(dataset))@, id),
            r is Err ==> Self::stored(final(dataset))@ == Self::stored(old(dataset))@,
    ;
}

/// A tier. Each operation is that of the entity type it is asked for: it
/// hands the tier and the argument to the operation of the entity type, and
/// what that operation returns and leaves behind is what comes back.
pub trait Dataset: Sized {
    fn get<M: DatasetModel<Self>>(&self, id: ID) -> (r: Result<Option<Fetched<'_, M>>, Error>)
        ensures
            call_ensures(M::dataset_get, (self, id), r),
            r matches Ok(found) ==> (found is Some == lookup(M::stored(self)@, id) is Some) && (found
                is Some ==> Some(found->0.value()) == lookup(M::stored(self)@, id)),
    {
        M::dataset_get(self, id)
    }

    fn put<M: DatasetModel<Self>>(&mut self, model: M) -> (r: Result<ID, Error>)
        ensures
            exists|tier: &mut Self|
                *tier == *old(self) && *final(tier) == *final(self) && #[trigger] call_ensures(
                    M::dataset_put,
                    (tier, model),
                    r,
                ),
            r matches Ok(id) ==> exists|row: M|
                id_of(row) == id && row.spec_content()@ == model.spec_content()@ && M::stored(
                    final(self),
                )@ == #[trigger] with_row(M::stored(old(self))@, row),
            r is Err ==> M::stored(final(self))@ == M::stored(old(self))@,
    {
        M::dataset_put(self, model)
    }

    fn delete<M: DatasetModel<Self>>(&mut self, id: ID) -> (r: Result<(), Error>)
        ensures
            exists|tier: &mut Self|
                *tier == *old(self) && *final(tier) == *final(self) && #[trigger] call_ensures(
                    M::dataset_delete,
                    (tier, id),
                    r,
                ),
            r is Ok ==> M::stored(final(self))@ == without(M::stored(old(self))@, id),
            r is Err ==> M::stored(final(self))@ == M::stored(old(self))@,
    {
        M::dataset_delete(self, id)
    }
}

/// A tier that keeps its rows at hand.
pub trait DatasetDirect: Dataset {
    /// Takes an entity out of the tier, by the operation of the entity type.
    /// What was taken and changed goes back in with `put`.
    fn take<M: DatasetModelDirect<Self>>(&mut self, id: ID) -> (r: Result<Option<M>, Error>)
        ensures
            exists|tier: &mut Self|
                *tier == *old(self) && *final(tier) == *final(self) && #[trigger] call_ensures(
                    M::dataset_take,
                    (tier, id),
                    r,
                ),
            r matches Ok(taken) ==> taken == lookup(M::stored(old(self))@, id) && M::stored(
                final(self),
            )@ == without(M::stored(old(self))@, id),
            r is Err ==> M::stored(final(self))@ == M::stored(old(self))@,
    {
        M::dataset_take(self, id)
    }
}

/// The in-process tier.
pub trait MemoryDataset: DatasetDirect + Default {

}

impl<M: MetaModel> DatasetModel<MemoryTable<M>> for M {
    open spec fn stored(dataset: &MemoryTable<M>) -> Vec<M> {
        dataset.rows()
    }

    fn dataset_get<'d>(dataset: &'d MemoryTable<M>, id: ID) -> (r: Result<
        Option<Fetched<'d, M>>,
        Error,
    >)
        ensures
            r is Ok,
            r->Ok_0 is Some ==> r->Ok_0->0 is Borrowed,
    {
        proof {
            dataset.lemma_rows();
        }
        dataset.get(id)
    }

    fn dataset_put(dataset: &mut MemoryTable<M>, model: M) -> (r: Result<ID, Error>)
        ensures
            r is Ok,
            r->Ok_0 == id_of(model),
            Self::stored(final(dataset))@ == with_row(Self::stored(old(dataset))@, model),
    {
        proof {
            dataset.lemma_rows();
        }
        let r = dataset.put(model);
        proof {
            dataset.lemma_rows();
            assert(Self::stored(dataset)@ == with_row(Self::stored(old(dataset))@, model));
        }
        r
    }

    fn dataset_delete(dataset: &mut MemoryTable<M>, id: ID) -> (r: Result<(), Error>)
        ensures
            r is Ok,
    {
        proof {
            dataset.lemma_rows();
        }
        let r = dataset.delete(id);
        proof {
            dataset.lemma_rows();
        }
        r
    }
}

impl<M: MetaModel> DatasetModelDirect<MemoryTable<M>> for M {
    fn dataset_take(dataset: &mut MemoryTable<M>, id: ID) -> (r: Result<Option<M>, Error>)
        ensures
            r is Ok,
    {
        proof {
            dataset.lemma_rows();
        }
        let r = dataset.take(id);
        proof {
            dataset.lemma_rows();
        }
        r
    }
}

impl<M: MetaModel> Dataset for MemoryTable<M> {

}

impl<M: MetaModel> DatasetDirect for MemoryTable<M> {

}

impl<M: MetaModel> MemoryDataset for MemoryTable<M> {

}

} // verus!
