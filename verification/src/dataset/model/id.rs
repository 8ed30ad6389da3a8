use vstd::prelude::*;
use vstd::std_specs::cmp::PartialEqSpecImpl;

verus! {

/// The identity of a stored entity.
///
/// A serial is usable strictly between `u64::MIN` and `u64::MAX`: the minimum stands
/// for "no identity", the maximum is reserved for application logic and never stored.
#[derive(Debug, Clone, Copy, Eq)]
pub enum ID {
    /// Issued offline by the local generator; meaningful in one tier only.
    Local(u64),
    /// Assigned by the backing relational store.
    Authorative(u64),
    /// Both serials are known: first the local one, then the authorative one.
    Mutual(u64, u64),
}

/// An `ID` sorted into the three states that storage cares about.
#[derive(Debug, Clone, Copy)]
pub enum OptionID {
    /// The stored equivalent of NULL.
    Null,
    /// A marker for application logic; not valid for storage.
    Reserved,
    /// A usable identity.
    Valid(ID),
}

/// True of the two sentinel serials.
pub open spec fn is_sentinel(serial: u64) -> bool {
    serial == u64::MIN || serial == u64::MAX
}

/// The two's-complement reading of a serial as a signed 64-bit column value.
pub open spec fn as_sql(serial: u64) -> i64 {
    if serial <= i64::MAX as u64 {
        serial as i64
    } else {
        (serial - 0x1_0000_0000_0000_0000) as i64
    }
}

/// The serial that a signed 64-bit column value stands for.
pub open spec fn from_sql(column: i64) -> u64 {
    if column >= 0 {
        column as u64
    } else {
        (column + 0x1_0000_0000_0000_0000) as u64
    }
}

impl ID {
    /// When two identities name the same entity: they share a local serial or an
    /// authorative one. A local serial is never compared with an authorative one.
    pub open spec fn same(self, other: ID) -> bool {
        match (self, other) {
            (ID::Local(a), ID::Local(b)) => a == b,
            (ID::Authorative(a), ID::Authorative(b)) => a == b,
            (ID::Mutual(a, aa), ID::Mutual(b, bb)) => a == b || aa == bb,
            (ID::Local(a), ID::Mutual(b, _)) => a == b,
            (ID::Authorative(a), ID::Mutual(_, b)) => a == b,
            (ID::Mutual(a, _), ID::Local(b)) => a == b,
            (ID::Mutual(_, a), ID::Authorative(b)) => a == b,
            _ => false,
        }
    }

    pub open spec fn spec_authorative(self) -> Option<u64> {
        match self {
            ID::Authorative(id) => Some(id),
            ID::Mutual(_, id) => Some(id),
            ID::Local(_) => None,
        }
    }

    pub open spec fn spec_local(self) -> Option<u64> {
        match self {
            ID::Local(id) => Some(id),
            ID::Mutual(id, _) => Some(id),
            ID::Authorative(_) => None,
        }
    }

    pub open spec fn spec_best(self) -> u64 {
        match self {
            ID::Local(id) => id,
            ID::Authorative(id) => id,
            ID::Mutual(_, id) => id,
        }
    }

    /// The state of an identity: decided by the serial that `best` picks, except
    /// that a reconciled identity always counts as usable.
    pub open spec fn spec_into_option(self) -> OptionID {
        match self {
            ID::Mutual(_, _) => OptionID::Valid(self),
            _ => if self.spec_best() == u64::MIN {
                OptionID::Null
            } else if self.spec_best() == u64::MAX {
                OptionID::Reserved
            } else {
                OptionID::Valid(self)
            },
        }
    }

    pub open spec fn spec_valid(self) -> bool {
        self.spec_into_option() is Valid
    }

    /// What a reconciled identity must satisfy: neither serial is a sentinel.
    /// Identities of the other two variants are always well formed.
    pub open spec fn well_formed(self) -> bool {
        match self {
            ID::Mutual(l, a) => !is_sentinel(l) && !is_sentinel(a),
            _ => true,
        }
    }

    pub fn is_well_formed(&self) -> (r: bool)
        ensures
            r == self.well_formed(),
    {
        match *self {
            ID::Mutual(l, a) => l != u64::MIN && l != u64::MAX && a != u64::MIN && a != u64::MAX,
            _ => true,
        }
    }

    pub fn authorative_none() -> (r: ID)
        ensures
            r == ID::Authorative(u64::MIN),
    {
        ID::Authorative(u64::MIN)
    }

    pub fn authorative_reserved() -> (r: ID)
        ensures
            r == ID::Authorative(u64::MAX),
    {
        ID::Authorative(u64::MAX)
    }

    pub fn local_none() -> (r: ID)
        ensures
            r == ID::Local(u64::MIN),
    {
        ID::Local(u64::MIN)
    }

    pub fn local_reserved() -> (r: ID)
        ensures
            r == ID::Local(u64::MAX),
    {
        ID::Local(u64::MAX)
    }

    /// The identity of the single user of an offline installation.
    pub fn local_user() -> (r: ID)
        ensures
            r == ID::Local(1),
    {
        ID::Local(1)
    }

    /// Returns the authorative serial if one is known.
    pub fn authorative(&self) -> (r: Option<u64>)
        ensures
            r == self.spec_authorative(),
    {
        match self {
            ID::Authorative(id) => Some(*id),
            ID::Mutual(_, id) => Some(*id),
            ID::Local(_) => None,
        }
    }

    /// Returns the local serial if one is known.
    pub fn local(&self) -> (r: Option<u64>)
        ensures
            r == self.spec_local(),
    {
        match self {
            ID::Local(id) => Some(*id),
            ID::Mutual(id, _) => Some(*id),
            ID::Authorative(_) => None,
        }
    }

    /// Returns the best serial available, preferring the authorative one.
    pub fn best(&self) -> (r: u64)
        ensures
            r == self.spec_best(),
    {
        match self {
            ID::Local(id) => *id,
            ID::Authorative(id) => *id,
            ID::Mutual(_, id) => *id,
        }
    }

    /// Returns the best serial as a signed 64-bit column value.
    pub fn sql(&self) -> (r: i64)
        ensures
            r == as_sql(self.spec_best()),
    {
        serial_to_sql(self.best())
    }

    /// False exactly for the four sentinels `Local(MIN)`, `Local(MAX)`,
    /// `Authorative(MIN)` and `Authorative(MAX)`.
    pub fn valid(&self) -> (r: bool)
        ensures
            r == self.spec_valid(),
    {
        match *self {
            ID::Authorative(id) => id != u64::MIN && id != u64::MAX,
            ID::Local(id) => id != u64::MIN && id != u64::MAX,
            ID::Mutual(_, _) => true,
        }
    }

    /// The column value of a usable identity, and `None` for a sentinel.
    pub fn best_valid_sql(&self) -> (r: Option<i64>)
        ensures
            r == if self.spec_valid() {
                Some(as_sql(self.spec_best()))
            } else {
                None
            },
    {
        if self.valid() {
            Some(self.sql())
        } else {
            None
        }
    }

    /// Sorts this identity into none / reserved / usable.
    pub fn into_option(self) -> (r: OptionID)
        ensures
            r == self.spec_into_option(),
    {
        match self {
            ID::Authorative(id) => if id == u64::MIN {
                OptionID::Null
            } else if id == u64::MAX {
                OptionID::Reserved
            } else {
                OptionID::Valid(self)
            },
            ID::Local(id) => if id == u64::MIN {
                OptionID::Null
            } else if id == u64::MAX {
                OptionID::Reserved
            } else {
                OptionID::Valid(self)
            },
            ID::Mutual(_, _) => OptionID::Valid(self),
        }
    }
}

impl ID {
    /// The bytes that an identity feeds to a hasher: none. Identities that are
    /// the same must hash alike, and since `Local(5)` and `Authorative(9)` are
    /// both the same as `Mutual(5, 9)`, no serial and no kind can take part.
    pub open spec fn spec_hash_bytes(self) -> Seq<u8> {
        Seq::empty()
    }
}

impl std::hash::Hash for ID {
    /// Feeds `spec_hash_bytes` to the hasher, that is nothing: the hasher is
    /// left as it was.
    fn hash<H: std::hash::Hasher>(&self, state: &mut H)
        ensures
            *final(state) == *old(state),
    {
    }
}

/// Identities that are the same hash alike.
pub proof fn lemma_same_hashes_alike(a: ID, b: ID)
    requires
        a.same(b),
    ensures
        a.spec_hash_bytes() == b.spec_hash_bytes(),
{
}

impl PartialEq for ID {
    fn eq(&self, other: &ID) -> (r: bool) {
        match (*self, *other) {
            (ID::Local(a), ID::Local(b)) => a == b,
            (ID::Authorative(a), ID::Authorative(b)) => a == b,
            (ID::Mutual(a, aa), ID::Mutual(b, bb)) => a == b || aa == bb,
            (ID::Local(a), ID::Mutual(b, _)) => a == b,
            (ID::Authorative(a), ID::Mutual(_, b)) => a == b,
            (ID::Mutual(a, _), ID::Local(b)) => a == b,
            (ID::Mutual(_, a), ID::Authorative(b)) => a == b,
            _ => false,
        }
    }
}

impl PartialEqSpecImpl for ID {
    open spec fn obeys_eq_spec() -> bool {
        true
    }

    open spec fn eq_spec(&self, other: &ID) -> bool {
        self.same(*other)
    }
}

/// Reads a serial as a signed column value, bit for bit.
pub fn serial_to_sql(serial: u64) -> (r: i64)
    ensures
        r == as_sql(serial),
{
    if serial <= 0x7fff_ffff_ffff_ffff {
        serial as i64
    } else {
        let below: u64 = u64::MAX - serial;
        -1 - (below as i64)
    }
}

/// Reads a signed column value as a serial, bit for bit.
pub fn serial_from_sql(column: i64) -> (r: u64)
    ensures
        r == from_sql(column),
{
    if column >= 0 {
        column as u64
    } else {
        let below: u64 = (-1 - column) as u64;
        u64::MAX - below
    }
}

/// The source of fresh local serials: a counter that hands out its value and
/// moves on by one.
#[derive(Debug)]
pub struct LocalIdGenerator {
    next_serial: u64,
}

impl LocalIdGenerator {
    /// The first serial that a generator issues unless it is seeded otherwise.
    /// Everything below is left to sentinels and identities assigned by hand.
    pub const FLOOR: u64 = 101;

    /// The serial that the next call of `generate_local_id` returns.
    pub closed spec fn next(&self) -> u64 {
        self.next_serial
    }

    pub fn new() -> (r: Self)
        ensures
            r.next() == Self::FLOOR,
    {
        LocalIdGenerator { next_serial: 101 }
    }

    pub fn peek(&self) -> (r: u64)
        ensures
            r == self.next(),
    {
        self.next_serial
    }
}

/// Seeds a generator from the persisted high-water mark: the serial given is
/// the last one that was issued, and the generator goes on above it. The mark
/// must leave a serial to issue.
pub fn init_local_id_generator(last_serial: u64) -> (r: LocalIdGenerator)
    requires
        last_serial < u64::MAX,
    ensures
        r.next() == last_serial + 1,
{
    LocalIdGenerator { next_serial: last_serial + 1 }
}

/// As `init_local_id_generator`, and `None` where the mark is the last serial
/// there is.
pub fn try_init_local_id_generator(last_serial: u64) -> (r: Option<LocalIdGenerator>)
    ensures
        r is Some == (last_serial < u64::MAX),
        r is Some ==> r->0.next() == last_serial + 1,
{
    if last_serial < u64::MAX {
        Some(init_local_id_generator(last_serial))
    } else {
        None
    }
}

/// Issues the next local identity: the serial that the generator stands at,
/// after which it stands one higher. Each serial issued is therefore greater
/// than every one issued before, and greater than the mark that the generator
/// was seeded with. The last serial there is, is reserved and never issued: a
/// generator that stands at it is exhausted.
pub fn generate_local_id(generator: &mut LocalIdGenerator) -> (r: ID)
    requires
        old(generator).next() < u64::MAX,
    ensures
        r == ID::Local(old(generator).next()),
        final(generator).next() == old(generator).next() + 1,
        old(generator).next() > 0 ==> r.spec_valid(),
{
    let serial: u64 = generator.next_serial;
    generator.next_serial = serial + 1;
    ID::Local(serial)
}

/// As `generate_local_id`, and `None` from a generator that is exhausted,
/// which stays as it is.
pub fn try_generate_local_id(generator: &mut LocalIdGenerator) -> (r: Option<ID>)
    ensures
        r is Some == (old(generator).next() < u64::MAX),
        r is Some ==> r->0 == ID::Local(old(generator).next()) && final(generator).next() == old(
            generator,
        ).next() + 1,
        r is None ==> final(generator).next() == old(generator).next(),
{
    if generator.next_serial < u64::MAX {
        Some(generate_local_id(generator))
    } else {
        None
    }
}

/// Identity comparison is reflexive and symmetric. It is not transitive:
/// `Local(5)` and `Authorative(9)` both equal `Mutual(5, 9)` and differ from each other.
pub proof fn lemma_same_reflexive_symmetric(a: ID, b: ID)
    ensures
        a.same(a),
        a.same(b) == b.same(a),
{
}

/// A reconciled identity equals the authorative identity with its authorative
/// serial and the local identity with its local serial; a local identity never
/// equals an authorative one.
pub proof fn lemma_same_sees_through_reconciliation(l: u64, a: u64, x: u64, y: u64)
    ensures
        ID::Mutual(l, a).same(ID::Authorative(a)),
        ID::Mutual(l, a).same(ID::Local(l)),
        !ID::Local(x).same(ID::Authorative(y)),
        !ID::Authorative(x).same(ID::Local(y)),
{
}

/// Column values and serials convert back and forth without loss.
pub proof fn lemma_sql_round_trip(serial: u64, column: i64)
    ensures
        from_sql(as_sql(serial)) == serial,
        as_sql(from_sql(column)) == column,
{
}

} // verus!
