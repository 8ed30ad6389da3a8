use vstd::prelude::*;
use vstd::std_specs::cmp::PartialEqSpecImpl;
use vstd::std_specs::hash::DefaultHasherAdditionalSpecFns;
use std::collections::hash_map::DefaultHasher;
use crate::dataset::model::{
    clock_reading, hash_input, Hashcode, HashcodeTrait, Timestamp, TimestampTrait,
};
use crate::dataset::model::id::ID;

verus! {

/// The envelope that every stored entity carries.
///
/// Two envelopes are equal when identity and owner are: the timestamps and the
/// digest record change and take no part in comparison.
#[derive(Debug, Clone, Copy, Eq)]
pub struct Meta {
    pub id: ID,
    pub user_id: ID,
    pub time_created: Timestamp,
    pub time_modified: Timestamp,
    pub hashcode: Hashcode,
}

/// The columns of the envelope.
#[derive(Debug, Clone, Copy, PartialEq, Eq, Structural)]
pub enum MetaField {
    Id,
    UserId,
    TimeCreated,
    TimeModified,
    Hashcode,
}

/// What an enum of columns offers: for each column its name and its position.
pub trait DatasetFieldEnum: Sized {
    spec fn spec_name(&self) -> &'static str;

    spec fn spec_ordinal(&self) -> usize;

    /// The name of the column, in lower case with hyphens between its words.
    fn name(&self) -> (r: &'static str)
        ensures
            r@ == self.spec_name()@,
    ;

    /// The position of the column, counted from zero.
    fn ordinal(&self) -> (r: usize)
        ensures
            r == self.spec_ordinal(),
    ;
}

impl DatasetFieldEnum for MetaField {
    open spec fn spec_name(&self) -> &'static str {
        match self {
            MetaField::Id => "id",
            MetaField::UserId => "user-id",
            MetaField::TimeCreated => "time-created",
            MetaField::TimeModified => "time-modified",
            MetaField::Hashcode => "hashcode",
        }
    }

    open spec fn spec_ordinal(&self) -> usize {
        match self {
            MetaField::Id => 0,
            MetaField::UserId => 1,
            MetaField::TimeCreated => 2,
            MetaField::TimeModified => 3,
            MetaField::Hashcode => 4,
        }
    }

    fn name(&self) -> (r: &'static str) {
        match self {
            MetaField::Id => "id",
            MetaField::UserId => "user-id",
            MetaField::TimeCreated => "time-created",
            MetaField::TimeModified => "time-modified",
            MetaField::Hashcode => "hashcode",
        }
    }

    fn ordinal(&self) -> (r: usize) {
        match self {
            MetaField::Id => 0,
            MetaField::UserId => 1,
            MetaField::TimeCreated => 2,
            MetaField::TimeModified => 3,
            MetaField::Hashcode => 4,
        }
    }
}

impl MetaField {
    /// The number of columns.
    pub const COUNT: usize = 5;

    /// The column at a position, and `None` past the last.
    pub fn from_ordinal(ordinal: usize) -> (r: Option<MetaField>)
        ensures
            r is Some == (ordinal < Self::COUNT),
            r is Some ==> r->0.spec_ordinal() == ordinal,
    {
        match ordinal {
            0 => Some(MetaField::Id),
            1 => Some(MetaField::UserId),
            2 => Some(MetaField::TimeCreated),
            3 => Some(MetaField::TimeModified),
            4 => Some(MetaField::Hashcode),
            _ => None,
        }
    }

    /// The name of the column in a SQL table.
    pub fn column(&self) -> (r: &'static str)
        ensures
            r@ == match self {
                MetaField::Id => "id"@,
                MetaField::UserId => "user_id"@,
                MetaField::TimeCreated => "time_created"@,
                MetaField::TimeModified => "time_modified"@,
                MetaField::Hashcode => "hashcode"@,
            },
    {
        match self {
            MetaField::Id => "id",
            MetaField::UserId => "user_id",
            MetaField::TimeCreated => "time_created",
            MetaField::TimeModified => "time_modified",
            MetaField::Hashcode => "hashcode",
        }
    }

    /// All columns, in their order.
    pub fn fields() -> (r: Vec<MetaField>)
        ensures
            r@ == seq![
                MetaField::Id,
                MetaField::UserId,
                MetaField::TimeCreated,
                MetaField::TimeModified,
                MetaField::Hashcode,
            ],
    {
        let mut r: Vec<MetaField> = Vec::new();
        r.push(MetaField::Id);
        r.push(MetaField::UserId);
        r.push(MetaField::TimeCreated);
        r.push(MetaField::TimeModified);
        r.push(MetaField::Hashcode);
        assert(r@ =~= seq![
            MetaField::Id,
            MetaField::UserId,
            MetaField::TimeCreated,
            MetaField::TimeModified,
            MetaField::Hashcode,
        ]);
        r
    }
}

impl Meta {
    pub fn id(&self) -> (r: ID)
        ensures
            r == self.id,
    {
        self.id
    }

    pub fn user_id(&self) -> (r: ID)
        ensures
            r == self.user_id,
    {
        self.user_id
    }

    pub fn time_created(&self) -> (r: Timestamp)
        ensures
            r == self.time_created,
    {
        self.time_created
    }

    pub fn time_modified(&self) -> (r: Timestamp)
        ensures
            r == self.time_modified,
    {
        self.time_modified
    }
}

impl std::hash::Hash for Meta {
    /// Feeds nothing to the hasher: of an envelope only the two identities
    /// count in comparison, and an identity feeds nothing.
    fn hash<H: std::hash::Hasher>(&self, state: &mut H)
        ensures
            *final(state) == *old(state),
    {
    }
}

impl PartialEq for Meta {
    fn eq(&self, other: &Meta) -> (r: bool) {
        self.id == other.id && self.user_id == other.user_id
    }
}

impl PartialEqSpecImpl for Meta {
    open spec fn obeys_eq_spec() -> bool {
        true
    }

    open spec fn eq_spec(&self, other: &Meta) -> bool {
        self.id.same(other.id) && self.user_id.same(other.user_id)
    }
}

/// Why a builder could not produce its value.
#[derive(Debug, Clone, Copy, PartialEq, Eq)]
pub enum MetaBuilderError {
    /// A field without a default was never set; the field's name is given.
    UninitializedField(&'static str),
}

/// Collects the fields of a `Meta`. Identity, owner and both timestamps must be
/// set; the digest starts at zero unless given.
#[derive(Debug, Clone, Copy)]
pub struct MetaBuilder {
    pub id: Option<ID>,
    pub user_id: Option<ID>,
    pub time_created: Option<Timestamp>,
    pub time_modified: Option<Timestamp>,
    pub hashcode: Option<Hashcode>,
}

impl Default for MetaBuilder {
    fn default() -> (r: MetaBuilder)
        ensures
            r.id is None,
            r.user_id is None,
            r.time_created is None,
            r.time_modified is None,
            r.hashcode is None,
    {
        MetaBuilder {
            id: None,
            user_id: None,
            time_created: None,
            time_modified: None,
            hashcode: None,
        }
    }
}

impl MetaBuilder {
    pub fn id(self, value: ID) -> (r: MetaBuilder)
        ensures
            r == (MetaBuilder { id: Some(value), ..self }),
    {
        MetaBuilder { id: Some(value), ..self }
    }

    pub fn user_id(self, value: ID) -> (r: MetaBuilder)
        ensures
            r == (MetaBuilder { user_id: Some(value), ..self }),
    {
        MetaBuilder { user_id: Some(value), ..self }
    }

    pub fn time_created(self, value: Timestamp) -> (r: MetaBuilder)
        ensures
            r == (MetaBuilder { time_created: Some(value), ..self }),
    {
        MetaBuilder { time_created: Some(value), ..self }
    }

    pub fn time_modified(self, value: Timestamp) -> (r: MetaBuilder)
        ensures
            r == (MetaBuilder { time_modified: Some(value), ..self }),
    {
        MetaBuilder { time_modified: Some(value), ..self }
    }

    pub fn hashcode(self, value: Hashcode) -> (r: MetaBuilder)
        ensures
            r == (MetaBuilder { hashcode: Some(value), ..self }),
    {
        MetaBuilder { hashcode: Some(value), ..self }
    }

    /// What `build` returns: the envelope when the four required fields are set,
    /// else the name of the first one missing, in the order identity, owner,
    /// creation time, modification time.
    pub open spec fn spec_build(self) -> Result<Meta, MetaBuilderError> {
        if self.id is None {
            Err(MetaBuilderError::UninitializedField("id"))
        } else if self.user_id is None {
            Err(MetaBuilderError::UninitializedField("user_id"))
        } else if self.time_created is None {
            Err(MetaBuilderError::UninitializedField("time_created"))
        } else if self.time_modified is None {
            Err(MetaBuilderError::UninitializedField("time_modified"))
        } else {
            Ok(
                Meta {
                    id: self.id->0,
                    user_id: self.user_id->0,
                    time_created: self.time_created->0,
                    time_modified: self.time_modified->0,
                    hashcode: if self.hashcode is Some {
                        self.hashcode->0
                    } else {
                        0
                    },
                },
            )
        }
    }

    pub fn build(&self) -> (r: Result<Meta, MetaBuilderError>)
        ensures
            r == self.spec_build(),
    {
        let id = match self.id {
            Some(v) => v,
            None => {
                return Err(MetaBuilderError::UninitializedField("id"));
            },
        };
        let user_id = match self.user_id {
            Some(v) => v,
            None => {
                return Err(MetaBuilderError::UninitializedField("user_id"));
            },
        };
        let time_created = match self.time_created {
            Some(v) => v,
            None => {
                return Err(MetaBuilderError::UninitializedField("time_created"));
            },
        };
        let time_modified = match self.time_modified {
            Some(v) => v,
            None => {
                return Err(MetaBuilderError::UninitializedField("time_modified"));
            },
        };
        let hashcode: Hashcode = match self.hashcode {
            Some(v) => v,
            None => 0,
        };
        Ok(Meta { id, user_id, time_created, time_modified, hashcode })
    }
}

/// What every storable type offers: its envelope, the name of its table, and
/// the bytes its digest is taken over.
pub trait MetaModel: Sized {
    /// The envelope, as a value.
    spec fn spec_meta(&self) -> Meta;

    /// The bytes of the entity's own fields that take part in the digest.
    spec fn spec_content(&self) -> Vec<u8>;

    /// The name of the table or collection that holds entities of this type.
    fn schema_name() -> &'static str;

    /// The plural of `schema_name`.
    fn schema_name_plural() -> &'static str;

    fn meta(&self) -> (r: &Meta)
        ensures
            *r == self.spec_meta(),
    ;

    /// Mutable access to the envelope. Whatever is written through the reference
    /// becomes the envelope; the content stays as it was.
    fn meta_mut(&mut self) -> (r: &mut Meta)
        ensures
            *r == old(self).spec_meta(),
            final(self).spec_meta() == *final(r),
            final(self).spec_content() == old(self).spec_content(),
    ;

    fn content(&self) -> (r: Vec<u8>)
        ensures
            r@ == self.spec_content()@,
    ;

    fn id(&self) -> (r: ID)
        ensures
            r == self.spec_meta().id,
    {
        self.meta().id
    }

    fn user_id(&self) -> (r: ID)
        ensures
            r == self.spec_meta().user_id,
    {
        self.meta().user_id
    }

    fn time_created(&self) -> (r: Timestamp)
        ensures
            r == self.spec_meta().time_created,
    {
        self.meta().time_created
    }

    fn time_modified(&self) -> (r: Timestamp)
        ensures
            r == self.spec_meta().time_modified,
    {
        self.meta().time_modified
    }

    fn hashcode(&self) -> (r: Hashcode)
        ensures
            r == self.spec_meta().hashcode,
    {
        self.meta().hashcode
    }
}

/// What a storable type that records its changes offers: it can renew its digest
/// and stamp its time of modification.
pub trait MetaModelMut: MetaModel {
    /// Recomputes the digest and stores it in the envelope.
    fn rehash(&mut self)
        ensures
            final(self).spec_meta() == (Meta {
                hashcode: DefaultHasher::spec_finish(hash_input(old(self))),
                ..old(self).spec_meta()
            }),
            final(self).spec_content() == old(self).spec_content(),
    {
        let digest = Hashcode::calculate_hash(&*self);
        let meta = self.meta_mut();
        meta.hashcode = digest;
    }

    /// `rehash` for a chain of calls.
    fn rehashed(self) -> (r: Self)
        ensures
            r.spec_meta() == (Meta {
                hashcode: DefaultHasher::spec_finish(hash_input(&self)),
                ..self.spec_meta()
            }),
            r.spec_content() == self.spec_content(),
    {
        let mut model = self;
        model.rehash();
        model
    }

    /// Stamps the modification time with `now`, unless that would move it
    /// backwards: the time of modification never decreases.
    fn modify_at(&mut self, now: Timestamp)
        ensures
            final(self).spec_meta() == (Meta {
                time_modified: old(self).spec_meta().time_modified.spec_latest(now),
                ..old(self).spec_meta()
            }),
            final(self).spec_content() == old(self).spec_content(),
    {
        let meta = self.meta_mut();
        meta.time_modified = meta.time_modified.latest(now);
    }

    /// Stamps the modification time with the present instant: it becomes the
    /// later of what it was and what the clock reads. Whatever the clock says,
    /// only the modification time changes, and it does not decrease.
    fn modify_now(&mut self)
        ensures
            exists|now: Timestamp|
                clock_reading(now) && final(self).spec_meta().time_modified == #[trigger] old(
                    self,
                ).spec_meta().time_modified.spec_latest(now),
            old(self).spec_meta().time_modified.spec_at_or_before(
                final(self).spec_meta().time_modified,
            ),
            final(self).spec_meta() == (Meta {
                time_modified: final(self).spec_meta().time_modified,
                ..old(self).spec_meta()
            }),
            final(self).spec_content() == old(self).spec_content(),
    {
        let now = Timestamp::now();
        self.modify_at(now);
    }
}

impl MetaModel for Meta {
    open spec fn spec_meta(&self) -> Meta {
        *self
    }

    open spec fn spec_content(&self) -> Vec<u8> {
        choose|none: Vec<u8>| none@ == Seq::<u8>::empty()
    }

    fn schema_name() -> (r: &'static str)
        ensures
            r@ == "meta"@,
    {
        "meta"
    }

    fn schema_name_plural() -> (r: &'static str)
        ensures
            r@ == "meta"@,
    {
        "meta"
    }

    fn meta(&self) -> (r: &Meta) {
        self
    }

    fn meta_mut(&mut self) -> (r: &mut Meta) {
        self
    }

    fn content(&self) -> (r: Vec<u8>) {
        let r: Vec<u8> = Vec::new();
        assert(r@ == Seq::<u8>::empty());
        r
    }
}

impl MetaModelMut for Meta {

}

} // verus!
