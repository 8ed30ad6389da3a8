//! The tiered dataset: an ordered list of tiers through which a lookup cascades
//! and into whose memory tier a hit is promoted.
//!
//! The memory tier answers at once and is consulted here. A SQL tier answers
//! over a connection that the caller holds: a step of the cascade names the tier
//! to consult, the caller consults it and resumes the cascade with the answer.

use vstd::prelude::*;
use crate::dataset::DatasetModel;
use crate::dataset::driver::postgres::PostgresDataset;
use crate::dataset::driver::sqlite::SqliteDataset;
use crate::dataset::error::Error;
use crate::dataset::memory::{
    Fetched, id_of, lemma_put_then_get, lookup, MemoryTable, with_row, without,
};
use crate::dataset::model::id::ID;
use crate::dataset::model::meta::MetaModel;

verus! {

/// The kinds of tier that an order can name.
#[derive(Debug, Clone, Copy, PartialEq, Eq, Structural)]
pub enum DatasetType {
    /// Ends the order; what follows it is not read.
    Nothing,
    Memory,
    Sqlite,
    /// A generic remote tier. No dataset can be configured with it.
    Backend,
    Postgres,
}

/// The tiers of a dataset in the order in which they are tried.
pub type StrategicOrder = [DatasetType; 4];

#[derive(Debug, Clone, Copy)]
pub struct StrategicDatasetOptions {
    pub online: bool,
    pub strategic_order: StrategicOrder,
}

impl Default for StrategicDatasetOptions {
    fn default() -> (r: Self)
        ensures
            !r.online,
            r.strategic_order@ == offline_order(),
    {
        let r = StrategicDatasetOptions {
            online: false,
            strategic_order: [
                DatasetType::Memory,
                DatasetType::Nothing,
                DatasetType::Nothing,
                DatasetType::Nothing,
            ],
        };
        assert(r.strategic_order@ =~= offline_order());
        r
    }
}

impl StrategicDatasetOptions {
    pub fn strategic_order(&self) -> (r: StrategicOrder)
        ensures
            r == self.strategic_order,
    {
        self.strategic_order
    }

    pub fn is_online(&self) -> (r: bool)
        ensures
            r == self.online,
    {
        self.online
    }
}

/// The order of a dataset that works on memory alone.
pub open spec fn offline_order() -> Seq<DatasetType> {
    seq![DatasetType::Memory, DatasetType::Nothing, DatasetType::Nothing, DatasetType::Nothing]
}

/// Where a lookup stands.
pub enum Cascade<M> {
    /// A tier held the entity.
    Found(M),
    /// Every tier of the order was tried and none held it.
    Missing,
    /// The tier at this position of the order is to be consulted by the caller.
    Consult(DatasetType, int),
}

/// The cascade from position `start` on, over the rows of the memory tier:
/// the order is walked up to its end or its first `Nothing`; a memory tier that
/// holds the identity ends the walk with the entity, one that does not is
/// passed; the first tier of another kind stops the walk for the caller.
pub open spec fn cascade<M: MetaModel>(
    order: Seq<DatasetType>,
    rows: Seq<M>,
    id: ID,
    start: int,
) -> Cascade<M>
    decreases order.len() - start,
{
    if start < 0 || start >= order.len() || order[start] == DatasetType::Nothing {
        Cascade::Missing
    } else if order[start] == DatasetType::Memory {
        match lookup(rows, id) {
            Some(m) => Cascade::Found(m),
            None => cascade(order, rows, id, start + 1),
        }
    } else {
        Cascade::Consult(order[start], start)
    }
}

/// The tier whose answer decides a write: the first tier of the order that is
/// not memory, and memory where there is none.
pub open spec fn authority(order: Seq<DatasetType>, start: int) -> DatasetType
    decreases order.len() - start,
{
    if start < 0 || start >= order.len() || order[start] == DatasetType::Nothing {
        DatasetType::Memory
    } else if order[start] == DatasetType::Memory {
        authority(order, start + 1)
    } else {
        order[start]
    }
}

/// A step of a lookup, as handed to the caller.
pub enum GetStep<'a, M> {
    Found(Fetched<'a, M>),
    Missing,
    Consult { tier: DatasetType, position: usize },
}

impl<'a, M> GetStep<'a, M> {
    /// The step as a value.
    pub open spec fn view(self) -> Cascade<M> {
        match self {
            GetStep::Found(f) => Cascade::Found(f.value()),
            GetStep::Missing => Cascade::Missing,
            GetStep::Consult { tier, position } => Cascade::Consult(tier, position as int),
        }
    }
}

/// A step of a write, as handed to the caller.
pub enum PutStep<M> {
    /// Memory decided: the entity is stored under this identity.
    Done(ID),
    /// The caller is to write the entity to this tier and resume with the answer.
    Write { tier: DatasetType, model: M },
}

/// A step of a removal, as handed to the caller.
#[derive(Debug, Clone, Copy, PartialEq, Eq, Structural)]
pub enum DeleteStep {
    /// Memory decided: nothing is filed under the identity any more.
    Done,
    /// The caller is to delete from this tier and resume with the answer.
    Delete { tier: DatasetType },
}

/// An ordered set of tiers behind one interface.
pub struct StrategicDataset<M> {
    options: StrategicDatasetOptions,
    memory_dataset: MemoryTable<M>,
    sqlite_dataset: Option<SqliteDataset>,
    postgres_dataset: Option<PostgresDataset>,
}

impl<M: MetaModel> StrategicDataset<M> {
    /// The rows of the memory tier.
    pub closed spec fn memory(&self) -> Seq<M> {
        self.memory_dataset@
    }

    pub closed spec fn order(&self) -> Seq<DatasetType> {
        self.options.strategic_order@
    }

    pub closed spec fn online(&self) -> bool {
        self.options.online
    }

    pub closed spec fn sqlite(&self) -> Option<SqliteDataset> {
        self.sqlite_dataset
    }

    pub closed spec fn postgres(&self) -> Option<PostgresDataset> {
        self.postgres_dataset
    }

    /// True of the kinds of tier that this dataset can put to work: memory
    /// always, and a SQL tier where the dataset holds one and is online.
    pub open spec fn configured(&self, kind: DatasetType) -> bool {
        match kind {
            DatasetType::Memory => true,
            DatasetType::Sqlite => self.online() && self.sqlite() is Some,
            DatasetType::Postgres => self.online() && self.postgres() is Some,
            DatasetType::Backend => false,
            DatasetType::Nothing => false,
        }
    }

    /// True when `order` names, from `position` up to its next `Nothing`,
    /// only tiers that this dataset holds.
    pub open spec fn admits_from(&self, order: Seq<DatasetType>, position: int) -> bool
        decreases order.len() - position,
    {
        if position < 0 || position >= order.len() || order[position] == DatasetType::Nothing {
            true
        } else {
            self.configured(order[position]) && self.admits_from(order, position + 1)
        }
    }

    /// True when `order` has four places and names, before its first
    /// `Nothing`, only tiers that this dataset holds.
    pub open spec fn admits(&self, order: Seq<DatasetType>) -> bool {
        order.len() == 4 && self.admits_from(order, 0)
    }

    /// What a dataset admits depends on the tiers it holds alone.
    pub proof fn lemma_admits_same_tiers(&self, other: &Self, order: Seq<DatasetType>, position: int)
        requires
            forall|kind: DatasetType| self.configured(kind) ==> other.configured(kind),
            self.admits_from(order, position),
        ensures
            other.admits_from(order, position),
        decreases order.len() - position,
    {
        if !(position < 0 || position >= order.len() || order[position] == DatasetType::Nothing) {
            self.lemma_admits_same_tiers(other, order, position + 1);
        }
    }

    /// The invariant of a dataset: its own order is one that it admits. To meet
    /// a tier in the order that the dataset cannot put to work is a fault of
    /// configuration, which the constructors and `set_strategic_order` rule out.
    /// In particular the order of an offline dataset names memory alone.
    pub open spec fn well_configured(&self) -> bool {
        self.admits(self.order())
    }

    /// Offline, memory decides every write, and no lookup stops for another tier.
    pub proof fn lemma_offline_is_memory_only(&self, rows: Seq<M>, id: ID, start: int)
        requires
            !self.online(),
            self.admits_from(self.order(), start),
        ensures
            authority(self.order(), start) == DatasetType::Memory,
            !(cascade(self.order(), rows, id, start) is Consult),
        decreases self.order().len() - start,
    {
        let order = self.order();
        if !(start < 0 || start >= order.len() || order[start] == DatasetType::Nothing) {
            self.lemma_offline_is_memory_only(rows, id, start + 1);
        }
    }

    /// A dataset for work without connection: memory is its only tier.
    pub fn new_offline() -> (r: Self)
        ensures
            r.well_configured(),
            !r.online(),
            r.order() == offline_order(),
            r.memory() == Seq::<M>::empty(),
            r.sqlite() is None,
            r.postgres() is None,
    {
        let r = StrategicDataset {
            options: StrategicDatasetOptions::default(),
            memory_dataset: MemoryTable::new(),
            sqlite_dataset: None,
            postgres_dataset: None,
        };
        proof {
            reveal_with_fuel(StrategicDataset::admits_from, 3);
        }
        r
    }

    /// A dataset for connected work. It starts with memory as its only tier;
    /// the others are attached and then put into the order.
    pub fn new_online() -> (r: Self)
        ensures
            r.well_configured(),
            r.online(),
            r.order() == offline_order(),
            r.memory() == Seq::<M>::empty(),
            r.sqlite() is None,
            r.postgres() is None,
    {
        let defaults = StrategicDatasetOptions::default();
        let r = StrategicDataset {
            options: StrategicDatasetOptions {
                online: true,
                strategic_order: defaults.strategic_order,
            },
            memory_dataset: MemoryTable::new(),
            sqlite_dataset: None,
            postgres_dataset: None,
        };
        proof {
            reveal_with_fuel(StrategicDataset::admits_from, 3);
        }
        r
    }

    pub fn options(&self) -> (r: &StrategicDatasetOptions)
        ensures
            r.online == self.online(),
            r.strategic_order@ == self.order(),
    {
        &self.options
    }

    pub fn is_online(&self) -> (r: bool)
        ensures
            r == self.online(),
    {
        self.options.online
    }

    /// The memory tier, for direct access.
    pub fn memory_dataset(&self) -> (r: &MemoryTable<M>)
        ensures
            r@ == self.memory(),
    {
        &self.memory_dataset
    }

    pub fn sqlite_dataset(&self) -> (r: Option<SqliteDataset>)
        ensures
            r == self.sqlite(),
    {
        self.sqlite_dataset
    }

    pub fn postgres_dataset(&self) -> (r: Option<PostgresDataset>)
        ensures
            r == self.postgres(),
    {
        self.postgres_dataset
    }

    /// Gives the dataset a local SQL tier. The order stays as it is; an
    /// online dataset can take the tier into its order afterwards.
    pub fn attach_sqlite(&mut self, tier: SqliteDataset)
        requires
            old(self).well_configured(),
        ensures
            final(self).well_configured(),
            final(self).sqlite() == Some(tier),
            final(self).postgres() == old(self).postgres(),
            final(self).order() == old(self).order(),
            final(self).online() == old(self).online(),
            final(self).memory() == old(self).memory(),
    {
        self.sqlite_dataset = Some(tier);
        proof {
            old(self).lemma_admits_same_tiers(self, self.order(), 0);
        }
    }

    /// Gives the dataset a remote SQL tier. The order stays as it is; an
    /// online dataset can take the tier into its order afterwards.
    pub fn attach_postgres(&mut self, tier: PostgresDataset)
        requires
            old(self).well_configured(),
        ensures
            final(self).well_configured(),
            final(self).postgres() == Some(tier),
            final(self).sqlite() == old(self).sqlite(),
            final(self).order() == old(self).order(),
            final(self).online() == old(self).online(),
            final(self).memory() == old(self).memory(),
    {
        self.postgres_dataset = Some(tier);
        proof {
            old(self).lemma_admits_same_tiers(self, self.order(), 0);
        }
    }

    fn holds_kind(&self, kind: DatasetType) -> (r: bool)
        ensures
            r == self.configured(kind),
    {
        match kind {
            DatasetType::Memory => true,
            DatasetType::Sqlite => self.options.online && self.sqlite_dataset.is_some(),
            DatasetType::Postgres => self.options.online && self.postgres_dataset.is_some(),
            DatasetType::Backend => false,
            DatasetType::Nothing => false,
        }
    }

    /// Replaces the order, if the dataset admits the new one. Returns whether
    /// it did; an order that is not admitted leaves the dataset as it was.
    pub fn set_strategic_order(&mut self, order: StrategicOrder) -> (r: bool)
        requires
            old(self).well_configured(),
        ensures
            final(self).well_configured(),
            r == old(self).admits(order@),
            final(self).order() == if r {
                order@
            } else {
                old(self).order()
            },
            final(self).sqlite() == old(self).sqlite(),
            final(self).postgres() == old(self).postgres(),
            final(self).online() == old(self).online(),
            final(self).memory() == old(self).memory(),
    {
        let mut i: usize = 0;
        while i < 4
            invariant
                0 <= i <= 4,
                *self == *old(self),
                old(self).well_configured(),
                self.admits_from(order@, 0) == self.admits_from(order@, i as int),
            decreases 4 - i,
        {
            let kind = order[i];
            if kind == DatasetType::Nothing {
                self.options.strategic_order = order;
                proof {
                    old(self).lemma_admits_same_tiers(self, order@, 0);
                }
                return true;
            }
            if !self.holds_kind(kind) {
                return false;
            }
            i += 1;
        }
        self.options.strategic_order = order;
        proof {
            old(self).lemma_admits_same_tiers(self, order@, 0);
        }
        true
    }

    /// The lookup from position `start` of the order on.
    pub fn get_from(&self, id: ID, start: usize) -> (r: GetStep<'_, M>)
        requires
            self.well_configured(),
        ensures
            r@ == cascade(self.order(), self.memory(), id, start as int),
            r matches GetStep::Found(f) ==> f is Borrowed,
            r matches GetStep::Consult { tier, position } ==> tier != DatasetType::Memory && tier
                != DatasetType::Nothing && start <= position < 4 && self.order()[position as int]
                == tier,
            r matches GetStep::Consult { tier, position } ==> (self.admits_from(
                self.order(),
                start as int,
            ) ==> self.configured(tier)),
    {
        let mut i: usize = start;
        while i < 4
            invariant
                start <= i,
                self.well_configured(),
                cascade(self.order(), self.memory(), id, start as int) == cascade(
                    self.order(),
                    self.memory(),
                    id,
                    i as int,
                ),
                self.admits_from(self.order(), start as int) ==> self.admits_from(
                    self.order(),
                    i as int,
                ),
            decreases 4 - i,
        {
            let kind = self.options.strategic_order[i];
            match kind {
                DatasetType::Nothing => {
                    return GetStep::Missing;
                },
                DatasetType::Memory => {
                    match self.memory_dataset.get(id) {
                        Ok(Some(found)) => {
                            return GetStep::Found(found);
                        },
                        _ => {},
                    }
                },
                _ => {
                    return GetStep::Consult { tier: kind, position: i };
                },
            }
            i += 1;
        }
        GetStep::Missing
    }

    /// Looks `id` up: the cascade from the head of the order.
    pub fn get(&self, id: ID) -> (r: GetStep<'_, M>)
        requires
            self.well_configured(),
        ensures
            r@ == cascade(self.order(), self.memory(), id, 0),
            r matches GetStep::Found(f) ==> f is Borrowed,
            r matches GetStep::Consult { tier, position } ==> self.configured(tier) && tier
                != DatasetType::Memory && position < 4 && self.order()[position as int] == tier,
    {
        self.get_from(id, 0)
    }

    /// Resumes a lookup with the answer of the tier at `position`.
    ///
    /// A failure ends the lookup and is handed on as it came: no later tier is
    /// tried. A hit is promoted, that is written to the memory tier, and ends
    /// the lookup. A miss sends the cascade on to the next position. What is
    /// found is handed out as a view into the memory tier.
    pub fn resume_get(&mut self, id: ID, position: usize, outcome: Result<Option<M>, Error>) -> (r:
        Result<GetStep<'_, M>, Error>)
        requires
            old(self).well_configured(),
            position < 4,
        ensures
            final(self).well_configured(),
            final(self).order() == old(self).order(),
            final(self).online() == old(self).online(),
            final(self).sqlite() == old(self).sqlite(),
            final(self).postgres() == old(self).postgres(),
            r matches Ok(GetStep::Found(found)) ==> found is Borrowed,
            match outcome {
                Err(e) => r == Err::<GetStep<'_, M>, Error>(e) && final(self).memory() == old(
                    self,
                ).memory(),
                Ok(Some(m)) => r is Ok && r->Ok_0@ == Cascade::Found(m) && final(self).memory()
                    == with_row(old(self).memory(), m),
                Ok(None) => r is Ok && r->Ok_0@ == cascade(
                    old(self).order(),
                    old(self).memory(),
                    id,
                    position + 1,
                ) && final(self).memory() == old(self).memory(),
            },
    {
        match outcome {
            Err(e) => Err(e),
            Ok(None) => Ok(self.get_from(id, position + 1)),
            Ok(Some(m)) => {
                let key = m.id();
                proof {
                    lemma_put_then_get(self.memory(), m);
                }
                let _ = self.memory_dataset.put(m);
                proof {
                    old(self).lemma_admits_same_tiers(self, self.order(), 0);
                }
                match self.memory_dataset.get(key) {
                    Ok(Some(found)) => Ok(GetStep::Found(found)),
                    _ => {
                        assert(false);
                        Ok(GetStep::Missing)
                    },
                }
            },
        }
    }

    /// The tier whose answer decides a write.
    pub fn authority(&self) -> (r: DatasetType)
        requires
            self.well_configured(),
        ensures
            r == authority(self.order(), 0),
            self.configured(r),
            r != DatasetType::Nothing,
    {
        let mut i: usize = 0;
        while i < 4
            invariant
                0 <= i <= 4,
                self.well_configured(),
                authority(self.order(), 0) == authority(self.order(), i as int),
                self.admits_from(self.order(), i as int),
            decreases 4 - i,
        {
            let kind = self.options.strategic_order[i];
            match kind {
                DatasetType::Nothing => {
                    return DatasetType::Memory;
                },
                DatasetType::Memory => {},
                _ => {
                    return kind;
                },
            }
            i += 1;
        }
        DatasetType::Memory
    }

    /// Writes an entity. Where memory is the deciding tier the entity is stored
    /// and the write is done. Otherwise nothing is stored yet: the entity goes
    /// back to the caller with the tier to write it to.
    pub fn put(&mut self, model: M) -> (r: PutStep<M>)
        requires
            old(self).well_configured(),
        ensures
            final(self).well_configured(),
            final(self).order() == old(self).order(),
            final(self).online() == old(self).online(),
            final(self).sqlite() == old(self).sqlite(),
            final(self).postgres() == old(self).postgres(),
            authority(old(self).order(), 0) == DatasetType::Memory ==> r == PutStep::<M>::Done(
                id_of(model),
            ) && final(self).memory() == with_row(old(self).memory(), model),
            authority(old(self).order(), 0) != DatasetType::Memory ==> r == (PutStep::Write {
                tier: authority(old(self).order(), 0),
                model,
            }) && final(self).memory() == old(self).memory(),
    {
        let tier = self.authority();
        match tier {
            DatasetType::Memory => {
                let id = model.id();
                let _ = self.memory_dataset.put(model);
                proof {
                    old(self).lemma_admits_same_tiers(self, self.order(), 0);
                }
                PutStep::Done(id)
            },
            _ => PutStep::Write { tier, model },
        }
    }

    /// Resumes a write with the answer of the deciding tier. A failure is
    /// handed on as it came and leaves memory untouched. On success the same
    /// entity is written to memory as well, and the identity that the deciding
    /// tier reported is returned.
    pub fn resume_put(&mut self, model: M, outcome: Result<ID, Error>) -> (r: Result<ID, Error>)
        requires
            old(self).well_configured(),
        ensures
            final(self).well_configured(),
            final(self).order() == old(self).order(),
            final(self).online() == old(self).online(),
            final(self).sqlite() == old(self).sqlite(),
            final(self).postgres() == old(self).postgres(),
            r == outcome,
            final(self).memory() == if outcome is Ok {
                with_row(old(self).memory(), model)
            } else {
                old(self).memory()
            },
    {
        match outcome {
            Ok(id) => {
                let _ = self.memory_dataset.put(model);
                proof {
                    old(self).lemma_admits_same_tiers(self, self.order(), 0);
                }
                Ok(id)
            },
            Err(e) => Err(e),
        }
    }

    /// Removes what is filed under `id`. Where memory is the deciding tier the
    /// removal is done. Otherwise nothing is removed yet: the caller is told
    /// the tier to delete from.
    pub fn delete(&mut self, id: ID) -> (r: DeleteStep)
        requires
            old(self).well_configured(),
        ensures
            final(self).well_configured(),
            final(self).order() == old(self).order(),
            final(self).online() == old(self).online(),
            final(self).sqlite() == old(self).sqlite(),
            final(self).postgres() == old(self).postgres(),
            authority(old(self).order(), 0) == DatasetType::Memory ==> r == DeleteStep::Done
                && final(self).memory() == without(old(self).memory(), id),
            authority(old(self).order(), 0) != DatasetType::Memory ==> r == (DeleteStep::Delete {
                tier: authority(old(self).order(), 0),
            }) && final(self).memory() == old(self).memory(),
    {
        let tier = self.authority();
        match tier {
            DatasetType::Memory => {
                let _ = self.memory_dataset.delete(id);
                proof {
                    old(self).lemma_admits_same_tiers(self, self.order(), 0);
                }
                DeleteStep::Done
            },
            _ => DeleteStep::Delete { tier },
        }
    }

    /// Resumes a removal with the answer of the deciding tier. A failure is
    /// handed on as it came and leaves memory untouched. On success memory
    /// drops what it files under `id` as well.
    pub fn resume_delete(&mut self, id: ID, outcome: Result<(), Error>) -> (r: Result<(), Error>)
        requires
            old(self).well_configured(),
        ensures
            final(self).well_configured(),
            final(self).order() == old(self).order(),
            final(self).online() == old(self).online(),
            final(self).sqlite() == old(self).sqlite(),
            final(self).postgres() == old(self).postgres(),
            outcome is Ok ==> r is Ok,
            outcome matches Err(e) ==> r == Err::<(), Error>(e),
            final(self).memory() == if outcome is Ok {
                without(old(self).memory(), id)
            } else {
                old(self).memory()
            },
    {
        match outcome {
            Ok(()) => {
                let _ = self.memory_dataset.delete(id);
                proof {
                    old(self).lemma_admits_same_tiers(self, self.order(), 0);
                }
                Ok(())
            },
            Err(e) => Err(e),
        }
    }

    /// Removes what the memory tier files under `id` and hands it to the
    /// caller. Only memory offers this; the other tiers are not touched.
    pub fn take(&mut self, id: ID) -> (r: Result<Option<M>, Error>)
        requires
            old(self).well_configured(),
        ensures
            final(self).well_configured(),
            final(self).order() == old(self).order(),
            final(self).online() == old(self).online(),
            final(self).sqlite() == old(self).sqlite(),
            final(self).postgres() == old(self).postgres(),
            r == Ok::<Option<M>, Error>(lookup(old(self).memory(), id)),
            final(self).memory() == without(old(self).memory(), id),
    {
        let taken = self.memory_dataset.take(id);
        proof {
            old(self).lemma_admits_same_tiers(self, self.order(), 0);
        }
        taken
    }
}

/// An entity type that a tiered dataset can hold: one that its memory tier can
/// hold. Every entity type is.
pub trait StrategicDatasetModel: MetaModel + DatasetModel<MemoryTable<Self>> {

}

impl<M: MetaModel> StrategicDatasetModel for M {

}

/// The lookup that goes through the tiers in their order.
pub trait DatasetStrategy<M: MetaModel> {
    spec fn strategy_order(&self) -> Seq<DatasetType>;

    spec fn strategy_memory(&self) -> Seq<M>;

    spec fn strategy_ready(&self) -> bool;

    fn strategic_get(&self, id: ID) -> (r: GetStep<'_, M>)
        requires
            self.strategy_ready(),
        ensures
            r@ == cascade(self.strategy_order(), self.strategy_memory(), id, 0),
    ;
}

impl<M: MetaModel> DatasetStrategy<M> for StrategicDataset<M> {
    open spec fn strategy_order(&self) -> Seq<DatasetType> {
        self.order()
    }

    open spec fn strategy_memory(&self) -> Seq<M> {
        self.memory()
    }

    open spec fn strategy_ready(&self) -> bool {
        self.well_configured()
    }

    fn strategic_get(&self, id: ID) -> (r: GetStep<'_, M>) {
        self.get(id)
    }
}

/// What a tier other than memory answers to a lookup is outside this crate.
/// `run` says what the whole lookup comes to when each such tier answers from
/// rows of its own without failing: the entity found, if any, and the rows of
/// memory afterwards.
pub open spec fn run<M: MetaModel>(
    order: Seq<DatasetType>,
    rows: Seq<M>,
    others: spec_fn(DatasetType) -> Seq<M>,
    id: ID,
    start: int,
) -> (Option<M>, Seq<M>)
    decreases order.len() - start,
{
    if start < 0 || start >= order.len() || order[start] == DatasetType::Nothing {
        (None, rows)
    } else if order[start] == DatasetType::Memory {
        match lookup(rows, id) {
            Some(m) => (Some(m), rows),
            None => run(order, rows, others, id, start + 1),
        }
    } else {
        match lookup(others(order[start]), id) {
            Some(m) => (Some(m), with_row(rows, m)),
            None => run(order, rows, others, id, start + 1),
        }
    }
}

/// `run` is the cascade, resumed at each tier that it stops for.
pub proof fn lemma_run_follows_cascade<M: MetaModel>(
    order: Seq<DatasetType>,
    rows: Seq<M>,
    others: spec_fn(DatasetType) -> Seq<M>,
    id: ID,
    start: int,
)
    ensures
        run(order, rows, others, id, start) == match cascade(order, rows, id, start) {
            Cascade::Found(m) => (Some(m), rows),
            Cascade::Missing => (None, rows),
            Cascade::Consult(tier, position) => match lookup(others(tier), id) {
                Some(m) => (Some(m), with_row(rows, m)),
                None => run(order, rows, others, id, position + 1),
            },
        },
    decreases order.len() - start,
{
    if !(start < 0 || start >= order.len() || order[start] == DatasetType::Nothing) {
        if order[start] == DatasetType::Memory {
            if lookup(rows, id) is None {
                lemma_run_follows_cascade(order, rows, others, id, start + 1);
                lemma_cascade_after_memory_miss(order, rows, id, start + 1);
            }
        }
    }
}

/// Past a memory tier that missed, later memory tiers miss too.
proof fn lemma_cascade_after_memory_miss<M: MetaModel>(
    order: Seq<DatasetType>,
    rows: Seq<M>,
    id: ID,
    start: int,
)
    requires
        lookup(rows, id) is None,
    ensures
        !(cascade(order, rows, id, start) is Found),
    decreases order.len() - start,
{
    if !(start < 0 || start >= order.len() || order[start] == DatasetType::Nothing) {
        if order[start] == DatasetType::Memory {
            lemma_cascade_after_memory_miss(order, rows, id, start + 1);
        }
    }
}

/// A lookup under an identity that no tier holds finds nothing, and leaves
/// memory as it was.
pub proof fn lemma_absent_everywhere<M: MetaModel>(
    order: Seq<DatasetType>,
    rows: Seq<M>,
    others: spec_fn(DatasetType) -> Seq<M>,
    id: ID,
    start: int,
)
    requires
        lookup(rows, id) is None,
        forall|tier: DatasetType| lookup(#[trigger] others(tier), id) is None,
    ensures
        run(order, rows, others, id, start) == (None::<M>, rows),
        !(cascade(order, rows, id, start) is Found),
    decreases order.len() - start,
{
    lemma_cascade_after_memory_miss(order, rows, id, start);
    if !(start < 0 || start >= order.len() || order[start] == DatasetType::Nothing) {
        lemma_absent_everywhere(order, rows, others, id, start + 1);
    }
}

/// A dataset whose order names memory alone answers as its memory tier does.
pub proof fn lemma_offline_cascade<M: MetaModel>(rows: Seq<M>, id: ID)
    ensures
        cascade(offline_order(), rows, id, 0) == match lookup(rows, id) {
            Some(m) => Cascade::Found(m),
            None => Cascade::Missing,
        },
        authority(offline_order(), 0) == DatasetType::Memory,
{
    reveal_with_fuel(cascade, 3);
    reveal_with_fuel(authority, 3);
}

/// Promotion. With memory first and a second tier behind it, a lookup of an
/// entity that only the second tier holds stops for that tier; resumed with the
/// entity, it has written the entity to memory; and from then on the cascade is
/// answered by memory with that entity, without stopping for the second tier.
pub proof fn lemma_promotion<M: MetaModel>(
    second: DatasetType,
    rows: Seq<M>,
    others: spec_fn(DatasetType) -> Seq<M>,
    e: M,
)
    requires
        second != DatasetType::Memory,
        second != DatasetType::Nothing,
        lookup(rows, id_of(e)) is None,
        lookup(others(second), id_of(e)) == Some(e),
    ensures
        ({
            let order = seq![DatasetType::Memory, second, DatasetType::Nothing, DatasetType::Nothing];
            &&& cascade(order, rows, id_of(e), 0) == Cascade::<M>::Consult(second, 1)
            &&& run(order, rows, others, id_of(e), 0) == (Some(e), with_row(rows, e))
            &&& lookup(with_row(rows, e), id_of(e)) == Some(e)
            &&& cascade(order, with_row(rows, e), id_of(e), 0) == Cascade::Found(e)
        }),
{
    let order = seq![DatasetType::Memory, second, DatasetType::Nothing, DatasetType::Nothing];
    reveal_with_fuel(cascade, 3);
    reveal_with_fuel(run, 3);
    lemma_put_then_get(rows, e);
}

/// A write that the deciding tier accepted, followed by a lookup under the
/// identity of what was written, is answered by memory with that entity when
/// memory stands first in the order.
pub proof fn lemma_write_then_cascade<M: MetaModel>(order: Seq<DatasetType>, rows: Seq<M>, e: M)
    requires
        order.len() > 0,
        order[0] == DatasetType::Memory,
    ensures
        cascade(order, with_row(rows, e), id_of(e), 0) == Cascade::Found(e),
{
    lemma_put_then_get(rows, e);
}

} // verus!
