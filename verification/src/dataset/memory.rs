use vstd::prelude::*;
use crate::dataset::error::Error;
use crate::dataset::model::id::ID;
use crate::dataset::model::meta::MetaModel;

verus! {

/// What a lookup hands back: a view into the store where the tier keeps the
/// entity in memory, or a value of its own where the tier made one from a row.
#[derive(Debug)]
pub enum Fetched<'a, M> {
    Borrowed(&'a M),
    Owned(M),
}

impl<'a, M> Fetched<'a, M> {
    /// The entity, whichever way it is held.
    pub open spec fn value(self) -> M {
        match self {
            Fetched::Borrowed(m) => *m,
            Fetched::Owned(m) => m,
        }
    }

    pub fn is_borrowed(&self) -> (r: bool)
        ensures
            r == (*self is Borrowed),
    {
        match self {
            Fetched::Borrowed(_) => true,
            Fetched::Owned(_) => false,
        }
    }

    pub fn as_ref(&self) -> (r: &M)
        ensures
            *r == self.value(),
    {
        match self {
            Fetched::Borrowed(m) => m,
            Fetched::Owned(m) => m,
        }
    }
}

/// The identity under which a row is filed.
pub open spec fn id_of<M: MetaModel>(row: M) -> ID {
    row.spec_meta().id
}

/// True when some row carries an identity that is the same as `id`.
pub open spec fn holds<M: MetaModel>(rows: Seq<M>, id: ID) -> bool {
    exists|i: int| 0 <= i < rows.len() && #[trigger] id_of(rows[i]).same(id)
}

/// The first row whose identity is the same as `id`.
pub open spec fn lookup<M: MetaModel>(rows: Seq<M>, id: ID) -> Option<M>
    decreases rows.len(),
{
    if rows.len() == 0 {
        None
    } else {
        let before = lookup(rows.drop_last(), id);
        if before is Some {
            before
        } else if id_of(rows.last()).same(id) {
            Some(rows.last())
        } else {
            None
        }
    }
}

/// The rows whose identity is not the same as `id`, in their order.
pub open spec fn without<M: MetaModel>(rows: Seq<M>, id: ID) -> Seq<M>
    decreases rows.len(),
{
    if rows.len() == 0 {
        rows
    } else if id_of(rows.last()).same(id) {
        without(rows.drop_last(), id)
    } else {
        without(rows.drop_last(), id).push(rows.last())
    }
}

/// Where an identity is filed: the place of the first row whose identity is
/// the same as `id`.
pub open spec fn position<M: MetaModel>(rows: Seq<M>, id: ID) -> Option<int>
    decreases rows.len(),
{
    if rows.len() == 0 {
        None
    } else {
        let before = position(rows.drop_last(), id);
        if before is Some {
            before
        } else if id_of(rows.last()).same(id) {
            Some(rows.len() - 1)
        } else {
            None
        }
    }
}

/// The rows after `model` is written: it takes the place of the first row
/// with the same identity, and comes last where there is none. Every other
/// row stays where it is.
pub open spec fn with_row<M: MetaModel>(rows: Seq<M>, model: M) -> Seq<M> {
    match position(rows, id_of(model)) {
        Some(i) => rows.update(i, model),
        None => rows.push(model),
    }
}

/// `position` finds the first row of the identity, and nothing exactly when
/// no row has the identity. What `lookup` finds is the row at that place.
pub proof fn lemma_position<M: MetaModel>(rows: Seq<M>, id: ID)
    ensures
        position(rows, id) matches Some(i) ==> 0 <= i < rows.len() && id_of(rows[i]).same(id)
            && forall|j: int| 0 <= j < i ==> !(#[trigger] id_of(rows[j])).same(id),
        position(rows, id) is None <==> !holds(rows, id),
        lookup(rows, id) == match position(rows, id) {
            Some(i) => Some(rows[i]),
            None => None,
        },
    decreases rows.len(),
{
    if rows.len() > 0 {
        let front = rows.drop_last();
        lemma_position(front, id);
        assert forall|j: int| 0 <= j < front.len() implies front[j] == rows[j] by {}
        match position(front, id) {
            Some(i) => {
                assert(id_of(rows[i]).same(id));
                assert forall|j: int| 0 <= j < i implies !(#[trigger] id_of(rows[j])).same(id) by {
                    assert(front[j] == rows[j]);
                }
            },
            None => {
                if id_of(rows.last()).same(id) {
                    let i = rows.len() - 1;
                    assert(id_of(rows[i]).same(id));
                    assert forall|j: int| 0 <= j < i implies !(#[trigger] id_of(rows[j])).same(
                        id,
                    ) by {
                        assert(front[j] == rows[j]);
                        if id_of(front[j]).same(id) {
                            assert(holds(front, id));
                        }
                    }
                } else {
                    if holds(rows, id) {
                        let i = choose|i: int|
                            0 <= i < rows.len() && #[trigger] id_of(rows[i]).same(id);
                        assert(front[i] == rows[i]);
                        assert(id_of(front[i]).same(id));
                        assert(holds(front, id));
                        assert(false);
                    }
                }
            },
        }
    }
}

/// A row of the identity before which no row has the identity is the one
/// that `position` finds.
pub proof fn lemma_position_first<M: MetaModel>(rows: Seq<M>, id: ID, i: int)
    requires
        0 <= i < rows.len(),
        id_of(rows[i]).same(id),
        forall|j: int| 0 <= j < i ==> !(#[trigger] id_of(rows[j])).same(id),
    ensures
        position(rows, id) == Some(i),
{
    lemma_position(rows, id);
    assert(holds(rows, id));
    let k = position(rows, id)->0;
    if k < i {
        assert(!id_of(rows[k]).same(id));
    }
    if i < k {
        assert(id_of(rows[i]).same(id));
    }
}

/// `lookup` finds nothing exactly when no row has the identity; what it finds is
/// the first such row.
pub proof fn lemma_lookup<M: MetaModel>(rows: Seq<M>, id: ID)
    ensures
        lookup(rows, id) is None <==> !holds(rows, id),
        lookup(rows, id) is Some ==> exists|i: int|
            0 <= i < rows.len() && rows[i] == lookup(rows, id)->0 && #[trigger] id_of(rows[i]).same(
                id,
            ) && forall|j: int| 0 <= j < i ==> !(#[trigger] id_of(rows[j])).same(id),
    decreases rows.len(),
{
    if rows.len() > 0 {
        let front = rows.drop_last();
        lemma_lookup(front, id);
        if lookup(front, id) is Some {
            let i = choose|i: int|
                0 <= i < front.len() && front[i] == lookup(front, id)->0 && #[trigger] id_of(
                    front[i],
                ).same(id) && forall|j: int| 0 <= j < i ==> !(#[trigger] id_of(front[j])).same(id);
            assert(rows[i] == front[i]);
            assert(id_of(rows[i]).same(id));
            assert forall|j: int| 0 <= j < i implies !(#[trigger] id_of(rows[j])).same(id) by {
                assert(rows[j] == front[j]);
            }
        } else {
            assert(!holds(front, id));
            if id_of(rows.last()).same(id) {
                let i = rows.len() - 1;
                assert(id_of(rows[i]).same(id));
                assert forall|j: int| 0 <= j < i implies !(#[trigger] id_of(rows[j])).same(id) by {
                    assert(rows[j] == front[j]);
                    if id_of(front[j]).same(id) {
                        assert(holds(front, id));
                    }
                }
            } else {
                if holds(rows, id) {
                    let i = choose|i: int| 0 <= i < rows.len() && #[trigger] id_of(rows[i]).same(id);
                    assert(i < front.len());
                    assert(front[i] == rows[i]);
                    assert(id_of(front[i]).same(id));
                    assert(false);
                }
            }
        }
    }
}

/// Once a prefix of the rows holds the identity, the lookup is settled.
pub proof fn lemma_lookup_prefix<M: MetaModel>(rows: Seq<M>, id: ID, n: int)
    requires
        0 <= n <= rows.len(),
        lookup(rows.take(n), id) is Some,
    ensures
        lookup(rows, id) == lookup(rows.take(n), id),
    decreases rows.len() - n,
{
    if n < rows.len() {
        assert(rows.take(n + 1).drop_last() =~= rows.take(n));
        lemma_lookup_prefix(rows, id, n + 1);
    } else {
        assert(rows.take(n) =~= rows);
    }
}

/// `without` leaves no row with the identity, keeps every other row, and keeps
/// the rows in order: what stays is a subsequence, given here by where each
/// row that stays came from.
pub proof fn lemma_without<M: MetaModel>(rows: Seq<M>, id: ID)
    ensures
        !holds(without(rows, id), id),
        without(rows, id).len() <= rows.len(),
        forall|i: int|
            0 <= i < without(rows, id).len() ==> rows.contains(#[trigger] without(rows, id)[i]),
        forall|i: int|
            0 <= i < rows.len() && !(#[trigger] id_of(rows[i])).same(id) ==> without(
                rows,
                id,
            ).contains(rows[i]),
        !holds(rows, id) ==> without(rows, id) == rows,
    decreases rows.len(),
{
    let kept = without(rows, id);
    if rows.len() > 0 {
        let front = rows.drop_last();
        lemma_without(front, id);
        let kept_front = without(front, id);
        assert forall|i: int| 0 <= i < kept.len() implies rows.contains(#[trigger] kept[i]) by {
            if i < kept_front.len() {
                assert(kept[i] == kept_front[i]);
                assert(front.contains(kept_front[i]));
                let k = choose|k: int| 0 <= k < front.len() && front[k] == kept_front[i];
                assert(rows[k] == kept_front[i]);
            } else {
                assert(kept[i] == rows.last());
                assert(rows[rows.len() - 1] == kept[i]);
            }
        }
        assert forall|i: int|
            0 <= i < rows.len() && !(#[trigger] id_of(rows[i])).same(id) implies kept.contains(
            rows[i],
        ) by {
            if i < front.len() {
                assert(front[i] == rows[i]);
                assert(kept_front.contains(front[i]));
                let k = choose|k: int| 0 <= k < kept_front.len() && kept_front[k] == front[i];
                assert(kept[k] == rows[i]);
            } else {
                assert(kept[kept.len() - 1] == rows[i]);
            }
        }
        if holds(kept, id) {
            let i = choose|i: int| 0 <= i < kept.len() && #[trigger] id_of(kept[i]).same(id);
            if i < kept_front.len() {
                assert(kept_front[i] == kept[i]);
                assert(id_of(kept_front[i]).same(id));
                assert(holds(kept_front, id));
            }
            assert(false);
        }
        if !holds(rows, id) {
            if holds(front, id) {
                let i = choose|i: int| 0 <= i < front.len() && #[trigger] id_of(front[i]).same(id);
                assert(rows[i] == front[i]);
                assert(id_of(rows[i]).same(id));
                assert(false);
            }
            assert(!id_of(rows[rows.len() - 1]).same(id));
            assert(kept =~= rows);
        }
    }
}

/// An entity that was written is what a lookup under its identity returns.
pub proof fn lemma_put_then_get<M: MetaModel>(rows: Seq<M>, model: M)
    ensures
        lookup(with_row(rows, model), id_of(model)) == Some(model),
{
    let id = id_of(model);
    let after = with_row(rows, model);
    lemma_position(rows, id);
    match position(rows, id) {
        Some(i) => {
            assert forall|j: int| 0 <= j < i implies !(#[trigger] id_of(after[j])).same(id) by {
                assert(after[j] == rows[j]);
            }
            lemma_position_first(after, id, i);
        },
        None => {
            let i = rows.len() as int;
            assert forall|j: int| 0 <= j < i implies !(#[trigger] id_of(after[j])).same(id) by {
                assert(after[j] == rows[j]);
                if id_of(rows[j]).same(id) {
                    assert(holds(rows, id));
                }
            }
            lemma_position_first(after, id, i);
        },
    }
    lemma_position(after, id);
}

/// A write never shrinks the table: it adds one row where no row had the
/// identity and none where one had. Every row but the one that gives way is
/// where it was, and so is every row of another identity.
pub proof fn lemma_put_keeps_the_rest<M: MetaModel>(rows: Seq<M>, model: M)
    ensures
        with_row(rows, model).len() == rows.len() + if holds(rows, id_of(model)) {
            0int
        } else {
            1int
        },
        forall|j: int|
            0 <= j < rows.len() && Some(j) != position(rows, id_of(model)) ==> with_row(
                rows,
                model,
            )[j] == #[trigger] rows[j],
        forall|j: int|
            0 <= j < rows.len() && !(#[trigger] id_of(rows[j])).same(id_of(model)) ==> with_row(
                rows,
                model,
            )[j] == rows[j],
{
    lemma_position(rows, id_of(model));
}

/// A lookup under an identity that no row carries finds nothing.
pub proof fn lemma_absent_get_none<M: MetaModel>(rows: Seq<M>, id: ID)
    requires
        !holds(rows, id),
    ensures
        lookup(rows, id) is None,
{
    lemma_lookup(rows, id);
}

/// Deleting twice is deleting once, and deleting what is absent changes nothing.
pub proof fn lemma_delete_idempotent<M: MetaModel>(rows: Seq<M>, id: ID)
    ensures
        without(without(rows, id), id) == without(rows, id),
        !holds(rows, id) ==> without(rows, id) == rows,
{
    lemma_without(rows, id);
    lemma_without(without(rows, id), id);
}

/// Where one row alone has the identity, removing what is filed under the
/// identity removes that row and no other.
pub proof fn lemma_delete_one<M: MetaModel>(rows: Seq<M>, id: ID, i: int)
    requires
        0 <= i < rows.len(),
        id_of(rows[i]).same(id),
        forall|j: int| 0 <= j < rows.len() && j != i ==> !(#[trigger] id_of(rows[j])).same(id),
    ensures
        without(rows, id) == rows.remove(i),
    decreases rows.len(),
{
    let front = rows.drop_last();
    if i == rows.len() - 1 {
        assert forall|j: int| 0 <= j < front.len() implies !(#[trigger] id_of(front[j])).same(
            id,
        ) by {
            assert(front[j] == rows[j]);
        }
        if holds(front, id) {
            let k = choose|k: int| 0 <= k < front.len() && #[trigger] id_of(front[k]).same(id);
            assert(false);
        }
        lemma_without(front, id);
        assert(rows.remove(i) =~= front);
    } else {
        assert(front[i] == rows[i]);
        assert forall|j: int| 0 <= j < front.len() && j != i implies !(#[trigger] id_of(
            front[j],
        )).same(id) by {
            assert(front[j] == rows[j]);
        }
        lemma_delete_one(front, id, i);
        assert(rows.remove(i) =~= front.remove(i).push(rows.last()));
    }
}

/// After the rows with an identity are gone, a lookup under it finds nothing.
pub proof fn lemma_take_then_get_none<M: MetaModel>(rows: Seq<M>, id: ID)
    ensures
        lookup(without(rows, id), id) is None,
{
    lemma_without(rows, id);
    lemma_lookup(without(rows, id), id);
}

/// The in-process tier: the rows of one entity type, found by identity.
///
/// The caller decides the identity of what it writes; the table issues none.
/// The rows are kept in a list and found by comparing identities: sameness of
/// identities is not transitive, so that no hash and no order can file the
/// same identities in the same place.
#[derive(Debug)]
pub struct MemoryTable<M> {
    rows: Vec<M>,
}

impl<M: MetaModel> View for MemoryTable<M> {
    type V = Seq<M>;

    closed spec fn view(&self) -> Seq<M> {
        self.rows@
    }
}

impl<M: MetaModel> MemoryTable<M> {
    /// The rows as the table keeps them.
    pub closed spec fn rows(&self) -> Vec<M> {
        self.rows
    }

    /// The view of the table is the view of its rows.
    pub proof fn lemma_rows(&self)
        ensures
            self.rows()@ == self@,
    {
    }
}

impl<M: MetaModel> Default for MemoryTable<M> {
    fn default() -> (r: Self)
        ensures
            r@ == Seq::<M>::empty(),
    {
        MemoryTable { rows: Vec::new() }
    }
}

impl<M: MetaModel> MemoryTable<M> {
    /// An empty table.
    pub fn new() -> (r: Self)
        ensures
            r@ == Seq::<M>::empty(),
    {
        MemoryTable { rows: Vec::new() }
    }

    /// The rows, oldest first.
    pub fn as_slice(&self) -> (r: &[M])
        ensures
            r@ == self@,
    {
        self.rows.as_slice()
    }

    /// The number of rows.
    pub fn len(&self) -> (r: usize)
        ensures
            r == self@.len(),
    {
        self.rows.len()
    }

    /// Returns a view of the entity filed under `id`, or `None` where there is
    /// none. Never fails.
    pub fn get(&self, id: ID) -> (r: Result<Option<Fetched<'_, M>>, Error>)
        ensures
            r is Ok,
            r->Ok_0 is Some == lookup(self@, id) is Some,
            r->Ok_0 is Some ==> r->Ok_0->0 is Borrowed && Some(r->Ok_0->0.value()) == lookup(
                self@,
                id,
            ),
    {
        let mut i: usize = 0;
        assert(self.rows@.take(0) =~= Seq::<M>::empty());
        while i < self.rows.len()
            invariant
                0 <= i <= self.rows.len(),
                lookup(self.rows@.take(i as int), id) is None,
            decreases self.rows.len() - i,
        {
            assert(self.rows@.take(i + 1).drop_last() =~= self.rows@.take(i as int));
            if self.rows[i].id() == id {
                proof {
                    lemma_lookup_prefix(self.rows@, id, i + 1);
                }
                return Ok(Some(Fetched::Borrowed(&self.rows[i])));
            }
            i += 1;
        }
        assert(self.rows@.take(i as int) =~= self.rows@);
        Ok(None)
    }

    /// Removes every row filed under `id` and hands back the first of them.
    fn remove_all(&mut self, id: ID) -> (r: Option<M>)
        ensures
            final(self)@ == without(old(self)@, id),
            r == lookup(old(self)@, id),
    {
        let ghost before = self.rows@;
        let mut first: Option<M> = None;
        let mut i: usize = 0;
        let mut seen: Ghost<int> = Ghost(0);
        assert(before.take(0) =~= Seq::<M>::empty());
        assert(before.skip(0) =~= before);
        while i < self.rows.len()
            invariant
                0 <= seen@ <= before.len(),
                0 <= i <= self.rows.len(),
                self.rows@ == without(before.take(seen@), id) + before.skip(seen@),
                i == without(before.take(seen@), id).len(),
                first == lookup(before.take(seen@), id),
            decreases self.rows.len() - i,
        {
            let ghost kept = without(before.take(seen@), id);
            assert(before.take(seen@ + 1).drop_last() =~= before.take(seen@));
            assert(self.rows@[i as int] == before[seen@]);
            assert(before.take(seen@ + 1).last() == before[seen@]);
            if self.rows[i].id() == id {
                let gone = self.rows.remove(i);
                if first.is_none() {
                    first = Some(gone);
                }
                assert(self.rows@ =~= kept + before.skip(seen@ + 1));
            } else {
                i += 1;
                assert(self.rows@ =~= kept.push(before[seen@]) + before.skip(seen@ + 1));
            }
            proof {
                seen@ = seen@ + 1;
            }
        }
        proof {
            lemma_without(before.take(seen@), id);
            assert(before.skip(seen@).len() == 0);
            assert(seen@ == before.len());
            assert(before.take(seen@) =~= before);
            assert(self.rows@ =~= without(before, id));
        }
        first
    }

    /// Finds where `id` is filed.
    fn find(&self, id: ID) -> (r: Option<usize>)
        ensures
            r is Some == position(self@, id) is Some,
            r is Some ==> r->0 == position(self@, id)->0 && r->0 < self@.len(),
    {
        let mut i: usize = 0;
        while i < self.rows.len()
            invariant
                0 <= i <= self.rows.len(),
                forall|j: int| 0 <= j < i ==> !(#[trigger] id_of(self.rows@[j])).same(id),
            decreases self.rows.len() - i,
        {
            if self.rows[i].id() == id {
                proof {
                    lemma_position_first(self.rows@, id, i as int);
                }
                return Some(i);
            }
            i += 1;
        }
        proof {
            lemma_position(self.rows@, id);
            if holds(self.rows@, id) {
                let k = choose|k: int|
                    0 <= k < self.rows@.len() && #[trigger] id_of(self.rows@[k]).same(id);
                assert(!id_of(self.rows@[k]).same(id));
            }
        }
        None
    }

    /// Writes `model` under its own identity. Where a row has the same
    /// identity, the first such row gives way to it in its place; where none
    /// has, the entity is added. Every other row stays, so that the table grows
    /// by one row or not at all. Returns the identity of the entity. Never fails.
    pub fn put(&mut self, model: M) -> (r: Result<ID, Error>)
        ensures
            r is Ok,
            r->Ok_0 == id_of(model),
            final(self)@ == with_row(old(self)@, model),
            lookup(final(self)@, id_of(model)) == Some(model),
            final(self)@.len() == old(self)@.len() + if holds(old(self)@, id_of(model)) {
                0int
            } else {
                1int
            },
            forall|j: int|
                0 <= j < old(self)@.len() && !(#[trigger] id_of(old(self)@[j])).same(id_of(model))
                    ==> final(self)@[j] == old(self)@[j],
    {
        let id = model.id();
        proof {
            lemma_put_keeps_the_rest(self@, model);
            lemma_put_then_get(self@, model);
        }
        match self.find(id) {
            Some(i) => {
                self.rows.set(i, model);
            },
            None => {
                self.rows.push(model);
            },
        }
        Ok(id)
    }

    /// Removes what is filed under `id`: every row of that identity, so that
    /// a lookup under the identity finds nothing afterwards. The other rows
    /// stay, in their order. Removing nothing is no error.
    pub fn delete(&mut self, id: ID) -> (r: Result<(), Error>)
        ensures
            r is Ok,
            final(self)@ == without(old(self)@, id),
            lookup(final(self)@, id) is None,
    {
        proof {
            lemma_take_then_get_none(self@, id);
        }
        let _ = self.remove_all(id);
        Ok(())
    }

    /// Removes what is filed under `id` and hands it to the caller: the first
    /// row with that identity, or `None` where there is none. The table is
    /// left without the identity: a lookup under it finds nothing afterwards,
    /// so that where a second row had the identity, that row is gone as well.
    /// Never fails.
    pub fn take(&mut self, id: ID) -> (r: Result<Option<M>, Error>)
        ensures
            r == Ok::<Option<M>, Error>(lookup(old(self)@, id)),
            final(self)@ == without(old(self)@, id),
            lookup(final(self)@, id) is None,
    {
        proof {
            lemma_take_then_get_none(self@, id);
        }
        Ok(self.remove_all(id))
    }
}

} // verus!
