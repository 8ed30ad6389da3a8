use vstd::prelude::*;
use vstd::std_specs::hash::DefaultHasherAdditionalSpecFns;
use std::collections::hash_map::DefaultHasher;
use std::hash::Hasher;
use crate::dataset::model::meta::MetaModel;

pub mod id;
pub mod meta;

verus! {

/// A point in time: whole seconds since the Unix epoch, and the nanoseconds
/// into that second.
#[derive(Debug, Clone, Copy, PartialEq, Eq, Structural)]
pub struct Timestamp {
    pub secs: i64,
    pub nanos: u32,
}

/// A content digest kept beside an entity for change detection.
pub type Hashcode = u64;

/// Reads the system clock through `chrono::Utc::now`, which takes the time since
/// the Unix epoch from the operating system. Trusted: the seconds are not
/// negative and the nanoseconds stay below one second. Nothing is claimed of
/// which instant comes back, and two calls need not agree. `Utc::now` panics on
/// a machine whose clock stands before 1970.
#[verifier::external_body]
fn clock_now() -> (r: (i64, u32))
    ensures
        r.0 >= 0,
        r.1 < 1_000_000_000,
{
    let now = chrono::Utc::now();
    (now.timestamp(), now.timestamp_subsec_nanos())
}

impl Timestamp {
    /// A timestamp from its two parts.
    pub fn new(secs: i64, nanos: u32) -> (r: Timestamp)
        ensures
            r.secs == secs,
            r.nanos == nanos,
    {
        Timestamp { secs, nanos }
    }

    /// When `self` is not later than `other`.
    pub open spec fn spec_at_or_before(self, other: Timestamp) -> bool {
        self.secs < other.secs || (self.secs == other.secs && self.nanos <= other.nanos)
    }

    pub fn at_or_before(&self, other: &Timestamp) -> (r: bool)
        ensures
            r == self.spec_at_or_before(*other),
    {
        self.secs < other.secs || (self.secs == other.secs && self.nanos <= other.nanos)
    }

    /// The later of two timestamps; `self` where they are equal.
    pub open spec fn spec_latest(self, other: Timestamp) -> Timestamp {
        if other.spec_at_or_before(self) {
            self
        } else {
            other
        }
    }

    pub fn latest(self, other: Timestamp) -> (r: Timestamp)
        ensures
            r == self.spec_latest(other),
    {
        if other.at_or_before(&self) {
            self
        } else {
            other
        }
    }
}

/// True of what the clock can read: an instant at or after the Unix epoch,
/// with its nanoseconds below one second.
pub open spec fn clock_reading(instant: Timestamp) -> bool {
    instant.secs >= 0 && instant.nanos < 1_000_000_000
}

/// Gives `Timestamp` its clock.
pub trait TimestampTrait {
    /// The present instant. Which instant that is depends on the clock alone.
    fn now() -> Timestamp;
}

impl TimestampTrait for Timestamp {
    fn now() -> (r: Timestamp)
        ensures
            clock_reading(r),
    {
        let (secs, nanos) = clock_now();
        Timestamp { secs, nanos }
    }
}

/// What the digest of an entity is computed from: the entity's own content.
/// The envelope stays out. Its times and its stored digest record change and
/// are no part of what changes; and entities that are equal must digest alike
/// whichever of their equal identities they carry, so that no identity can
/// take part.
pub open spec fn hash_input<T: MetaModel>(model: &T) -> Seq<Seq<u8>> {
    seq![model.spec_content()@]
}

/// Gives `Hashcode` its digest function.
pub trait HashcodeTrait {
    /// The digest of an entity: std's default hasher run over `hash_input`.
    fn calculate_hash<T: MetaModel>(model: &T) -> (r: Hashcode)
        ensures
            r == DefaultHasher::spec_finish(hash_input(model)),
    ;
}

impl HashcodeTrait for Hashcode {
    fn calculate_hash<T: MetaModel>(model: &T) -> (r: Hashcode) {
        let mut hasher = DefaultHasher::new();
        let content = model.content();
        hasher.write(content.as_slice());
        assert(hasher@ =~= hash_input(model));
        hasher.finish()
    }
}

/// Entities with the same content have the same digest, whatever their
/// envelopes hold.
pub proof fn lemma_digest_of_content<T: MetaModel>(a: &T, b: &T)
    requires
        a.spec_content()@ == b.spec_content()@,
    ensures
        DefaultHasher::spec_finish(hash_input(a)) == DefaultHasher::spec_finish(hash_input(b)),
{
}

/// The order on timestamps is total, and taking the later of two never moves
/// backwards.
pub proof fn lemma_latest_is_monotone(before: Timestamp, now: Timestamp)
    ensures
        before.spec_at_or_before(before.spec_latest(now)),
        now.spec_at_or_before(before.spec_latest(now)),
        before.spec_at_or_before(now) || now.spec_at_or_before(before),
{
}

} // verus!
