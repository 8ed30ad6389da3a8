//! A trait as an enum answers it, and an enum that answers one: the first
//! with its methods, the second with the values of each variant.

use vstd::prelude::*;
use crate::text::same;
use crate::traitenum::model::{Identifier, RelationDefinition, RelationNature, ReturnType};
use crate::traitenum::model::definition::{Definition, VariantValue};
use crate::traitenum::model::number::PresetNumber;

verus! {

/// A method of the trait: its name, what it returns, and how its value is defined.
#[derive(Debug, PartialEq)]
pub struct Method<D, S> {
    pub name: String,
    pub return_type: ReturnType,
    pub attribute_definition: Definition<D, S>,
}

impl<D, S> Method<D, S> {
    pub fn name(&self) -> (r: &str)
        ensures
            r@ == self.name@,
    {
        self.name.as_str()
    }

    pub fn return_type(&self) -> (r: ReturnType)
        ensures
            r == self.return_type,
    {
        self.return_type
    }

    pub fn attribute_definition(&self) -> (r: &Definition<D, S>)
        ensures
            *r == self.attribute_definition,
    {
        &self.attribute_definition
    }

    pub fn new(name: String, return_type: ReturnType, attribute_definition: Definition<D, S>) -> (r:
        Self)
        ensures
            r.name == name,
            r.return_type == return_type,
            r.attribute_definition == attribute_definition,
    {
        Method { name, return_type, attribute_definition }
    }
}

/// The value that a variant gives for a method.
#[derive(Debug, PartialEq)]
pub struct AttributeValue<D, S> {
    pub value: VariantValue<D, S>,
}

impl<D, S> AttributeValue<D, S> {
    pub fn value(&self) -> (r: &VariantValue<D, S>)
        ensures
            *r == self.value,
    {
        &self.value
    }

    pub fn new(value: VariantValue<D, S>) -> (r: Self)
        ensures
            r.value == value,
    {
        AttributeValue { value }
    }
}

/// The methods that are defined as relations, in their order.
pub open spec fn relations<D, S>(methods: Seq<Method<D, S>>) -> Seq<Method<D, S>>
    decreases methods.len(),
{
    if methods.len() == 0 {
        methods
    } else if methods.last().attribute_definition is Relation {
        relations(methods.drop_last()).push(methods.last())
    } else {
        relations(methods.drop_last())
    }
}

/// A trait that an enum answers.
#[derive(Debug, PartialEq)]
pub struct EnumTrait<D, S> {
    pub identifier: Identifier,
    pub methods: Vec<Method<D, S>>,
}

impl<D, S> EnumTrait<D, S> {
    pub fn identifier(&self) -> (r: &Identifier)
        ensures
            *r == self.identifier,
    {
        &self.identifier
    }

    pub fn methods(&self) -> (r: &[Method<D, S>])
        ensures
            r@ == self.methods@,
    {
        self.methods.as_slice()
    }

    /// The methods that are defined as relations, each with its relation.
    pub fn relation_methods(&self) -> (r: Vec<(&Method<D, S>, &RelationDefinition)>)
        ensures
            r@.len() == relations(self.methods@).len(),
            forall|i: int|
                0 <= i < r@.len() ==> *(#[trigger] r@[i]).0 == relations(self.methods@)[i]
                    && r@[i].0.attribute_definition is Relation && *r@[i].1
                    == r@[i].0.attribute_definition->Relation_0,
    {
        let mut r: Vec<(&Method<D, S>, &RelationDefinition)> = Vec::new();
        let mut i: usize = 0;
        assert(self.methods@.take(0) =~= Seq::<Method<D, S>>::empty());
        while i < self.methods.len()
            invariant
                0 <= i <= self.methods.len(),
                r@.len() == relations(self.methods@.take(i as int)).len(),
                forall|k: int|
                    0 <= k < r@.len() ==> *(#[trigger] r@[k]).0 == relations(
                        self.methods@.take(i as int),
                    )[k] && r@[k].0.attribute_definition is Relation && *r@[k].1
                        == r@[k].0.attribute_definition->Relation_0,
            decreases self.methods.len() - i,
        {
            assert(self.methods@.take(i + 1).drop_last() =~= self.methods@.take(i as int));
            assert(self.methods@.take(i + 1).last() == self.methods@[i as int]);
            let method = &self.methods[i];
            match &method.attribute_definition {
                Definition::Relation(relation) => {
                    r.push((method, relation));
                },
                _ => {},
            }
            i += 1;
        }
        assert(self.methods@.take(i as int) =~= self.methods@);
        r
    }

    pub fn new(identifier: Identifier, methods: Vec<Method<D, S>>) -> (r: Self)
        ensures
            r.identifier == identifier,
            r.methods == methods,
    {
        EnumTrait { identifier, methods }
    }
}

/// Where `name` is filed: the position of the first entry of that name.
pub open spec fn index_of<V>(entries: Seq<(String, V)>, name: Seq<char>) -> Option<int>
    decreases entries.len(),
{
    if entries.len() == 0 {
        None
    } else {
        let before = index_of(entries.drop_last(), name);
        if before is Some {
            before
        } else if entries.last().0@ == name {
            Some(entries.len() - 1)
        } else {
            None
        }
    }
}

/// What is filed under `name`.
pub open spec fn named<V>(entries: Seq<(String, V)>, name: Seq<char>) -> Option<V> {
    match index_of(entries, name) {
        Some(i) => Some(entries[i].1),
        None => None,
    }
}

/// The entries after `value` is filed under `name`: it takes the place of
/// what was filed under the name, or comes last where nothing was.
pub open spec fn filed<V>(entries: Seq<(String, V)>, name: String, value: V) -> Seq<(String, V)> {
    match index_of(entries, name@) {
        Some(i) => entries.update(i, (name, value)),
        None => entries.push((name, value)),
    }
}

/// No name is filed twice.
pub open spec fn unique_names<V>(entries: Seq<(String, V)>) -> bool {
    forall|i: int, j: int|
        0 <= i < j < entries.len() ==> (#[trigger] entries[i]).0@ != (#[trigger] entries[j]).0@
}

/// `index_of` finds the first entry of the name, and nothing exactly when no
/// entry has the name.
pub proof fn lemma_index_of<V>(entries: Seq<(String, V)>, name: Seq<char>)
    ensures
        index_of(entries, name) matches Some(i) ==> 0 <= i < entries.len() && entries[i].0@ == name
            && forall|j: int| 0 <= j < i ==> (#[trigger] entries[j]).0@ != name,
        index_of(entries, name) is None ==> forall|j: int|
            0 <= j < entries.len() ==> (#[trigger] entries[j]).0@ != name,
    decreases entries.len(),
{
    if entries.len() > 0 {
        let front = entries.drop_last();
        lemma_index_of(front, name);
        assert forall|j: int| 0 <= j < front.len() implies front[j] == entries[j] by {}
        match index_of(front, name) {
            Some(i) => {
                assert forall|j: int| 0 <= j < i implies (#[trigger] entries[j]).0@ != name by {
                    assert(front[j] == entries[j]);
                }
            },
            None => {
                assert forall|j: int| 0 <= j < front.len() implies (#[trigger] entries[j]).0@
                    != name by {
                    assert(front[j] == entries[j]);
                }
            },
        }
    }
}

/// An entry of the name at a position before which none has the name is the
/// one that `index_of` finds.
pub proof fn lemma_index_of_first<V>(entries: Seq<(String, V)>, name: Seq<char>, i: int)
    requires
        0 <= i < entries.len(),
        entries[i].0@ == name,
        forall|j: int| 0 <= j < i ==> (#[trigger] entries[j]).0@ != name,
    ensures
        index_of(entries, name) == Some(i),
{
    lemma_index_of(entries, name);
    match index_of(entries, name) {
        Some(k) => {
            if k < i {
                assert(entries[k].0@ != name);
            }
            if i < k {
                assert(entries[i].0@ != name);
            }
        },
        None => {
            assert(entries[i].0@ != name);
        },
    }
}

/// What was filed under a name is what is found under it, the entries under
/// other names stay, and names stay unique.
pub proof fn lemma_filed<V>(entries: Seq<(String, V)>, name: String, value: V, other: Seq<char>)
    ensures
        named(filed(entries, name, value), name@) == Some(value),
        other != name@ ==> named(filed(entries, name, value), other) == named(entries, other),
        unique_names(entries) ==> unique_names(filed(entries, name, value)),
{
    let after = filed(entries, name, value);
    lemma_index_of(entries, name@);
    lemma_index_of(entries, other);
    match index_of(entries, name@) {
        Some(i) => {
            assert forall|j: int| 0 <= j < i implies (#[trigger] after[j]).0@ != name@ by {
                assert(after[j] == entries[j]);
            }
            lemma_index_of_first(after, name@, i);
            if other != name@ {
                match index_of(entries, other) {
                    Some(k) => {
                        assert(k != i);
                        assert(after[k] == entries[k]);
                        assert forall|j: int| 0 <= j < k implies (#[trigger] after[j]).0@
                            != other by {
                            if j != i {
                                assert(after[j] == entries[j]);
                            }
                        }
                        lemma_index_of_first(after, other, k);
                    },
                    None => {
                        lemma_index_of(after, other);
                        if index_of(after, other) is Some {
                            let k = index_of(after, other)->0;
                            if k != i {
                                assert(after[k] == entries[k]);
                                assert(entries[k].0@ != other);
                            }
                        }
                    },
                }
            }
            if unique_names(entries) {
                assert forall|a: int, b: int| 0 <= a < b < after.len() implies (#[trigger] after[a]).0@
                    != (#[trigger] after[b]).0@ by {
                    assert(entries[a].0@ != entries[b].0@);
                    if a != i {
                        assert(after[a] == entries[a]);
                    }
                    if b != i {
                        assert(after[b] == entries[b]);
                    }
                }
            }
        },
        None => {
            let last = entries.len() as int;
            assert forall|j: int| 0 <= j < last implies (#[trigger] after[j]).0@ != name@ by {
                assert(after[j] == entries[j]);
            }
            lemma_index_of_first(after, name@, last);
            if other != name@ {
                assert(after.drop_last() =~= entries);
            }
            if unique_names(entries) {
                assert forall|a: int, b: int| 0 <= a < b < after.len() implies (#[trigger] after[a]).0@
                    != (#[trigger] after[b]).0@ by {
                    assert(after[a] == entries[a]);
                    if b < last {
                        assert(after[b] == entries[b]);
                        assert(entries[a].0@ != entries[b].0@);
                    }
                }
            }
        },
    }
}

proof fn lemma_index_settled<V>(entries: Seq<(String, V)>, name: Seq<char>, n: int)
    requires
        0 <= n <= entries.len(),
        index_of(entries.take(n), name) is Some,
    ensures
        index_of(entries, name) == index_of(entries.take(n), name),
    decreases entries.len() - n,
{
    if n < entries.len() {
        assert(entries.take(n + 1).drop_last() =~= entries.take(n));
        lemma_index_settled(entries, name, n + 1);
    } else {
        assert(entries.take(n) =~= entries);
    }
}

/// Finds where `name` is filed.
pub fn find_index<V>(entries: &Vec<(String, V)>, name: &str) -> (r: Option<usize>)
    ensures
        r is Some == index_of(entries@, name@) is Some,
        r is Some ==> r->0 == index_of(entries@, name@)->0 && r->0 < entries@.len(),
{
    let mut i: usize = 0;
    assert(entries@.take(0) =~= Seq::<(String, V)>::empty());
    while i < entries.len()
        invariant
            0 <= i <= entries.len(),
            index_of(entries@.take(i as int), name@) is None,
        decreases entries.len() - i,
    {
        assert(entries@.take(i + 1).drop_last() =~= entries@.take(i as int));
        assert(entries@.take(i + 1).last() == entries@[i as int]);
        if same(entries[i].0.as_str(), name) {
            proof {
                lemma_index_settled(entries@, name@, i + 1);
            }
            return Some(i);
        }
        i += 1;
    }
    assert(entries@.take(i as int) =~= entries@);
    None
}

/// Looks up what is filed under `name`.
pub fn find_named<'a, V>(entries: &'a Vec<(String, V)>, name: &str) -> (r: Option<&'a V>)
    ensures
        r is Some == named(entries@, name@) is Some,
        r is Some ==> *r->0 == named(entries@, name@)->0,
{
    match find_index(entries, name) {
        Some(i) => Some(&entries[i].1),
        None => None,
    }
}

/// Files `value` under `name`.
pub fn file_named<V>(entries: &mut Vec<(String, V)>, name: String, value: V)
    ensures
        final(entries)@ == filed(old(entries)@, name, value),
{
    match find_index(entries, name.as_str()) {
        Some(i) => {
            entries.set(i, (name, value));
        },
        None => {
            entries.push((name, value));
        },
    }
}

/// A variant with the values it gives, each filed under the name of its method.
#[derive(Debug, PartialEq)]
pub struct Variant<D, S> {
    pub name: String,
    pub named_values: Vec<(String, AttributeValue<D, S>)>,
}

impl<D, S> Variant<D, S> {
    pub fn name(&self) -> (r: &str)
        ensures
            r@ == self.name@,
    {
        self.name.as_str()
    }

    /// The values of the variant with the names they are filed under.
    pub fn values(&self) -> (r: &Vec<(String, AttributeValue<D, S>)>)
        ensures
            *r == self.named_values,
    {
        &self.named_values
    }

    pub fn new(name: String, value_map: Vec<(String, AttributeValue<D, S>)>) -> (r: Self)
        ensures
            r.name == name,
            r.named_values == value_map,
    {
        Variant { name, named_values: value_map }
    }

    pub fn has_value(&self, attribute_name: &str) -> (r: bool)
        ensures
            r == named(self.named_values@, attribute_name@) is Some,
    {
        find_named(&self.named_values, attribute_name).is_some()
    }

    pub fn value(&self, attribute_name: &str) -> (r: Option<&AttributeValue<D, S>>)
        ensures
            r is Some == named(self.named_values@, attribute_name@) is Some,
            r is Some ==> *r->0 == named(self.named_values@, attribute_name@)->0,
    {
        find_named(&self.named_values, attribute_name)
    }
}

/// The first variant of that name.
pub open spec fn variant_named<D, S>(variants: Seq<Variant<D, S>>, name: Seq<char>) -> Option<
    Variant<D, S>,
>
    decreases variants.len(),
{
    if variants.len() == 0 {
        None
    } else {
        let before = variant_named(variants.drop_last(), name);
        if before is Some {
            before
        } else if variants.last().name@ == name {
            Some(variants.last())
        } else {
            None
        }
    }
}

proof fn lemma_variant_settled<D, S>(variants: Seq<Variant<D, S>>, name: Seq<char>, n: int)
    requires
        0 <= n <= variants.len(),
        variant_named(variants.take(n), name) is Some,
    ensures
        variant_named(variants, name) == variant_named(variants.take(n), name),
    decreases variants.len() - n,
{
    if n < variants.len() {
        assert(variants.take(n + 1).drop_last() =~= variants.take(n));
        lemma_variant_settled(variants, name, n + 1);
    } else {
        assert(variants.take(n) =~= variants);
    }
}

/// An enum that answers a trait: its variants, and for each method that is a
/// relation the enum on the other side.
#[derive(Debug, PartialEq)]
pub struct TraitEnum<D, S> {
    pub identifier: Identifier,
    pub variants: Vec<Variant<D, S>>,
    pub named_relation_enum_ids: Vec<(String, Identifier)>,
}

impl<D, S> TraitEnum<D, S> {
    pub fn identifier(&self) -> (r: &Identifier)
        ensures
            *r == self.identifier,
    {
        &self.identifier
    }

    pub fn variants(&self) -> (r: &[Variant<D, S>])
        ensures
            r@ == self.variants@,
    {
        self.variants.as_slice()
    }

    pub fn new(
        identifier: Identifier,
        variants: Vec<Variant<D, S>>,
        relation_enums: Vec<(String, Identifier)>,
    ) -> (r: Self)
        ensures
            r.identifier == identifier,
            r.variants == variants,
            r.named_relation_enum_ids == relation_enums,
    {
        TraitEnum { identifier, variants, named_relation_enum_ids: relation_enums }
    }

    pub fn variant(&self, name: &str) -> (r: Option<&Variant<D, S>>)
        ensures
            r is Some == variant_named(self.variants@, name@) is Some,
            r is Some ==> *r->0 == variant_named(self.variants@, name@)->0,
    {
        let mut i: usize = 0;
        assert(self.variants@.take(0) =~= Seq::<Variant<D, S>>::empty());
        while i < self.variants.len()
            invariant
                0 <= i <= self.variants.len(),
                variant_named(self.variants@.take(i as int), name@) is None,
            decreases self.variants.len() - i,
        {
            assert(self.variants@.take(i + 1).drop_last() =~= self.variants@.take(i as int));
            if same(name, self.variants[i].name.as_str()) {
                proof {
                    lemma_variant_settled(self.variants@, name@, i + 1);
                }
                return Some(&self.variants[i]);
            }
            i += 1;
        }
        assert(self.variants@.take(i as int) =~= self.variants@);
        None
    }

    /// The related enums: each is filed under the name of the method that is
    /// the relation.
    pub fn relation_enums(&self) -> (r: &Vec<(String, Identifier)>)
        ensures
            *r == self.named_relation_enum_ids,
    {
        &self.named_relation_enum_ids
    }

    pub fn relation_enum_identifier(&self, relation_name: &str) -> (r: Option<&Identifier>)
        ensures
            r is Some == named(self.named_relation_enum_ids@, relation_name@) is Some,
            r is Some ==> *r->0 == named(self.named_relation_enum_ids@, relation_name@)->0,
    {
        find_named(&self.named_relation_enum_ids, relation_name)
    }
}

/// Collects the parts of a `Variant`.
pub struct VariantBuilder<D, S> {
    pub name: Option<String>,
    pub named_values: Option<Vec<(String, AttributeValue<D, S>)>>,
}

/// The entries of an optional list.
pub open spec fn entries_of<V>(list: Option<Vec<(String, V)>>) -> Seq<(String, V)> {
    match list {
        Some(v) => v@,
        None => Seq::empty(),
    }
}

impl<D, S> VariantBuilder<D, S> {
    pub fn new() -> (r: Self)
        ensures
            r.name is None,
            r.named_values is None,
    {
        VariantBuilder { name: None, named_values: None }
    }

    pub fn name(&mut self, name: String) -> (r: &mut Self)
        ensures
            *r == (VariantBuilder { name: Some(name), ..*old(self) }),
            *final(self) == *final(r),
    {
        self.name = Some(name);
        self
    }

    pub fn has_value(&self, attribute_name: &str) -> (r: bool)
        ensures
            r == named(entries_of(self.named_values), attribute_name@) is Some,
    {
        match &self.named_values {
            Some(values) => find_named(values, attribute_name).is_some(),
            None => false,
        }
    }

    pub fn get_value(&self, attribute_name: &str) -> (r: Option<&AttributeValue<D, S>>)
        ensures
            r is Some == named(entries_of(self.named_values), attribute_name@) is Some,
            r is Some ==> *r->0 == named(entries_of(self.named_values), attribute_name@)->0,
    {
        match &self.named_values {
            Some(values) => find_named(values, attribute_name),
            None => None,
        }
    }

    /// Files a value under the name of its method, in place of what was
    /// filed under the name before.
    pub fn value(&mut self, attribute_name: String, value: AttributeValue<D, S>) -> (r: &mut Self)
        ensures
            r.name == old(self).name,
            r.named_values is Some,
            entries_of(r.named_values) == filed(
                entries_of(old(self).named_values),
                attribute_name,
                value,
            ),
            *final(self) == *final(r),
    {
        let mut values = match self.named_values.take() {
            Some(values) => values,
            None => Vec::new(),
        };
        file_named(&mut values, attribute_name, value);
        self.named_values = Some(values);
        self
    }

    /// Builds the variant. The name must be set.
    pub fn build(self) -> (r: Variant<D, S>)
        requires
            self.name is Some,
        ensures
            r.name == self.name->0,
            r.named_values@ == entries_of(self.named_values),
    {
        let name = match self.name {
            Some(name) => name,
            None => String::new(),
        };
        let named_values = match self.named_values {
            Some(values) => values,
            None => Vec::new(),
        };
        Variant::new(name, named_values)
    }
}

/// The enum that a variant names for a method: the value that the variant
/// files under the name of the method, where the method is a one-to-many
/// relation and the value names an enum. `values` are the values of the variant.
pub open spec fn related<D, S>(
    method: Method<D, S>,
    values: Seq<(String, AttributeValue<D, S>)>,
) -> Option<Identifier> {
    match method.attribute_definition {
        Definition::Relation(relation) => if relation.nature == Some(RelationNature::OneToMany) {
            match named(values, method.name@) {
                Some(attribute) => match attribute.value {
                    VariantValue::Relation(id) => Some(id),
                    _ => None,
                },
                None => None,
            }
        } else {
            None
        },
        _ => None,
    }
}

/// The enum that the first `n` methods file under `name`: that of the last
/// of them that has the name and for which the variant names an enum.
pub open spec fn filing<D, S>(
    methods: Seq<Method<D, S>>,
    values: Seq<(String, AttributeValue<D, S>)>,
    name: Seq<char>,
    n: int,
) -> Option<Identifier>
    decreases n,
{
    if n <= 0 || n > methods.len() {
        None
    } else if methods[n - 1].name@ == name && related(methods[n - 1], values) is Some {
        related(methods[n - 1], values)
    } else {
        filing(methods, values, name, n - 1)
    }
}

/// True of two identifiers that agree in path and name.
pub open spec fn same_identifier(a: Identifier, b: Identifier) -> bool {
    a.path@ == b.path@ && a.name == b.name
}

/// The names under which something is filed.
pub open spec fn names_of<V>(entries: Seq<(String, V)>) -> Set<Seq<char>> {
    Set::new(|name: Seq<char>| named(entries, name) is Some)
}

/// True when the definition of a method gives a value for the variant of that
/// name at that position without being told one: by its default or by its
/// preset.
pub open spec fn gives<D: PresetNumber, S: PresetNumber>(
    method: Method<D, S>,
    variant_name: Seq<char>,
    ordinal: usize,
) -> bool {
    method.attribute_definition.spec_has_default() || exists|value: VariantValue<D, S>|
        method.attribute_definition.preset_is(variant_name, ordinal, value)
}

/// True when `value` is what the definition of a method gives for the variant.
pub open spec fn given<D: PresetNumber, S: PresetNumber>(
    method: Method<D, S>,
    variant_name: Seq<char>,
    ordinal: usize,
    value: VariantValue<D, S>,
) -> bool {
    if method.attribute_definition.spec_has_default() {
        method.attribute_definition.default_is(value)
    } else {
        method.attribute_definition.preset_is(variant_name, ordinal, value)
    }
}

/// The first method, from position `i` on, for which a variant is stuck: the
/// method needs a value, none is filed under its name, and its definition gives
/// none. `have` holds the names under which a value is filed; each method that
/// is passed and given a value adds its name.
pub open spec fn stuck_at<D: PresetNumber, S: PresetNumber>(
    methods: Seq<Method<D, S>>,
    have: Set<Seq<char>>,
    variant_name: Seq<char>,
    ordinal: usize,
    i: int,
) -> Option<int>
    decreases methods.len() - i,
{
    if i < 0 || i >= methods.len() {
        None
    } else if have.contains(methods[i].name@) || !methods[i].attribute_definition.spec_needs_value() {
        stuck_at(methods, have, variant_name, ordinal, i + 1)
    } else if !gives(methods[i], variant_name, ordinal) {
        Some(i)
    } else {
        stuck_at(methods, have.insert(methods[i].name@), variant_name, ordinal, i + 1)
    }
}

pub open spec fn missing_value_text(method: Seq<char>, variant: Seq<char>) -> Seq<char> {
    "Missing value for attribute `"@ + method + "`: "@ + variant
}

impl<D: PresetNumber, S: PresetNumber> VariantBuilder<D, S> {
    /// Gives the variant, which stands at position `ordinal` of its enum, a
    /// value for each method that needs one and has none yet: the default of
    /// the method's definition, or else what its preset makes of the variant.
    /// The methods are taken in their order. The first method that needs a
    /// value and can be given none is reported, and what was filled before it
    /// stays filled. The name of the variant must be set.
    pub fn fill_defaults(&mut self, methods: &Vec<Method<D, S>>, ordinal: usize) -> (r: Result<
        (),
        String,
    >)
        requires
            old(self).name is Some,
        ensures
            final(self).name == old(self).name,
            match stuck_at(
                methods@,
                names_of(entries_of(old(self).named_values)),
                old(self).name->0@,
                ordinal,
                0,
            ) {
                Some(k) => r is Err && r->Err_0@ == missing_value_text(
                    methods@[k].name@,
                    old(self).name->0@,
                ),
                None => r is Ok && forall|i: int|
                    0 <= i < methods@.len() && (#[trigger] methods@[i]).attribute_definition.spec_needs_value()
                        ==> named(entries_of(final(self).named_values), methods@[i].name@) is Some,
            },
            forall|name: Seq<char>|
                named(entries_of(old(self).named_values), name) is Some ==> named(
                    entries_of(final(self).named_values),
                    name,
                ) == #[trigger] named(entries_of(old(self).named_values), name),
            forall|name: Seq<char>|
                named(entries_of(old(self).named_values), name) is None && #[trigger] named(
                    entries_of(final(self).named_values),
                    name,
                ) is Some ==> exists|i: int|
                    0 <= i < methods@.len() && (#[trigger] methods@[i]).name@ == name && given(
                        methods@[i],
                        old(self).name->0@,
                        ordinal,
                        named(entries_of(final(self).named_values), name)->0.value,
                    ),
    {
        let variant_name = match &self.name {
            Some(name) => name.clone(),
            None => String::new(),
        };
        let mut values = match self.named_values.take() {
            Some(values) => values,
            None => Vec::new(),
        };
        let ghost before = values@;
        let ghost vn = variant_name@;
        assert(before == entries_of(old(self).named_values));
        let mut i: usize = 0;
        let mut failure: Option<String> = None;
        while i < methods.len() && failure.is_none()
            invariant
                0 <= i <= methods.len(),
                vn == variant_name@,
                self.name == old(self).name,
                failure is None ==> stuck_at(methods@, names_of(before), vn, ordinal, 0) == stuck_at(
                    methods@,
                    names_of(values@),
                    vn,
                    ordinal,
                    i as int,
                ),
                failure is None ==> forall|j: int|
                    0 <= j < i && (#[trigger] methods@[j]).attribute_definition.spec_needs_value()
                        ==> named(values@, methods@[j].name@) is Some,
                failure is Some ==> (stuck_at(methods@, names_of(before), vn, ordinal, 0) matches Some(
                    k,
                ) && failure->0@ == missing_value_text(methods@[k].name@, vn)),
                forall|name: Seq<char>|
                    named(before, name) is Some ==> named(values@, name) == #[trigger] named(
                        before,
                        name,
                    ),
                forall|name: Seq<char>|
                    named(before, name) is None && #[trigger] named(values@, name) is Some
                        ==> exists|k: int|
                        0 <= k < methods@.len() && (#[trigger] methods@[k]).name@ == name && given(
                            methods@[k],
                            vn,
                            ordinal,
                            named(values@, name)->0.value,
                        ),
            decreases methods.len() - i + (if failure is None { 1int } else { 0int }),
        {
            let method = &methods[i];
            let ghost now = values@;
            if find_named(&values, method.name()).is_some() || !method.attribute_definition.needs_value() {
                assert(names_of(now).contains(method.name@) == (named(now, method.name@) is Some));
                i += 1;
            } else {
                assert(!names_of(now).contains(method.name@));
                match method.attribute_definition.default_or_preset(variant_name.as_str(), ordinal) {
                    Some(value) => {
                        assert(gives(*method, vn, ordinal));
                        assert(given(*method, vn, ordinal, value));
                        let filed_name = String::from_str(method.name());
                        let attribute = AttributeValue::new(value);
                        file_named(&mut values, filed_name, attribute);
                        proof {
                            assert forall|other: Seq<char>| true implies (#[trigger] named(
                                values@,
                                other,
                            ) == if other == method.name@ {
                                Some(attribute)
                            } else {
                                named(now, other)
                            }) by {
                                lemma_filed(now, filed_name, attribute, other);
                            }
                            assert(names_of(values@) =~= names_of(now).insert(method.name@));
                            assert forall|name: Seq<char>|
                                named(before, name) is None && #[trigger] named(values@, name)
                                    is Some implies exists|k: int|
                                0 <= k < methods@.len() && (#[trigger] methods@[k]).name@ == name
                                    && given(methods@[k], vn, ordinal, named(values@, name)->0.value) by {
                                if name == method.name@ {
                                    assert(methods@[i as int].name@ == name);
                                } else {
                                    assert(named(now, name) is Some);
                                }
                            }
                        }
                        i += 1;
                    },
                    None => {
                        assert(!gives(*method, vn, ordinal));
                        let message = String::from_str("Missing value for attribute `").concat(
                            method.name(),
                        ).concat("`: ").concat(variant_name.as_str());
                        assert(message@ =~= missing_value_text(method.name@, vn));
                        failure = Some(message);
                    },
                }
            }
        }
        self.named_values = Some(values);
        match failure {
            Some(message) => Err(message),
            None => Ok(()),
        }
    }

    /// Files, for each method that is a one-to-many relation, the enum on the
    /// other side under the name of the method in the builder of the enum. The
    /// enum is the one that this variant names as its value for the method; a
    /// method for which the variant names none is passed. The methods are
    /// taken in their order, so that of two methods of one name the later one
    /// decides. What is filed under other names stays, and names stay unique.
    pub fn file_relations(&self, methods: &Vec<Method<D, S>>, traitenum: &mut TraitEnumBuilder<D, S>)
        ensures
            final(traitenum).identifier == old(traitenum).identifier,
            final(traitenum).variants == old(traitenum).variants,
            forall|name: Seq<char>|
                match #[trigger] filing(
                    methods@,
                    entries_of(self.named_values),
                    name,
                    methods@.len() as int,
                ) {
                    Some(id) => named(entries_of(final(traitenum).named_relation_enum_ids), name)
                        is Some && same_identifier(
                        named(entries_of(final(traitenum).named_relation_enum_ids), name)->0,
                        id,
                    ),
                    None => named(entries_of(final(traitenum).named_relation_enum_ids), name)
                        == named(entries_of(old(traitenum).named_relation_enum_ids), name),
                },
            unique_names(entries_of(old(traitenum).named_relation_enum_ids)) ==> unique_names(
                entries_of(final(traitenum).named_relation_enum_ids),
            ),
    {
        let ghost values = entries_of(self.named_values);
        let ghost before = entries_of(traitenum.named_relation_enum_ids);
        let mut i: usize = 0;
        while i < methods.len()
            invariant
                0 <= i <= methods.len(),
                values == entries_of(self.named_values),
                before == entries_of(old(traitenum).named_relation_enum_ids),
                traitenum.identifier == old(traitenum).identifier,
                traitenum.variants == old(traitenum).variants,
                forall|name: Seq<char>|
                    match #[trigger] filing(methods@, values, name, i as int) {
                        Some(id) => named(entries_of(traitenum.named_relation_enum_ids), name)
                            is Some && same_identifier(
                            named(entries_of(traitenum.named_relation_enum_ids), name)->0,
                            id,
                        ),
                        None => named(entries_of(traitenum.named_relation_enum_ids), name)
                            == named(before, name),
                    },
                unique_names(before) ==> unique_names(
                    entries_of(traitenum.named_relation_enum_ids),
                ),
            decreases methods.len() - i,
        {
            let method = &methods[i];
            let ghost now = entries_of(traitenum.named_relation_enum_ids);
            let mut filed_here: Ghost<bool> = Ghost(false);
            match &method.attribute_definition {
                Definition::Relation(relation) => {
                    match relation.nature {
                        Some(RelationNature::OneToMany) => {
                            match self.get_value(method.name()) {
                                Some(attribute) => match attribute.value() {
                                    VariantValue::Relation(id) => {
                                        let filed_name = String::from_str(method.name());
                                        let other_side = id.clone();
                                        traitenum.relation_enum(filed_name, other_side);
                                        proof {
                                            filed_here@ = true;
                                            assert(related(*method, values) == Some(*id));
                                            assert(same_identifier(other_side, *id));
                                            assert forall|name: Seq<char>|
                                                true implies #[trigger] named(
                                                entries_of(traitenum.named_relation_enum_ids),
                                                name,
                                            ) == if name == method.name@ {
                                                Some(other_side)
                                            } else {
                                                named(now, name)
                                            } by {
                                                lemma_filed(now, filed_name, other_side, name);
                                            }
                                            lemma_filed(now, filed_name, other_side, method.name@);
                                        }
                                    },
                                    _ => {},
                                },
                                None => {},
                            }
                        },
                        _ => {},
                    }
                },
                _ => {},
            }
            proof {
                if !filed_here@ {
                    assert(related(*method, values) is None);
                    assert(entries_of(traitenum.named_relation_enum_ids) == now);
                }
                assert forall|name: Seq<char>|
                    true implies match #[trigger] filing(methods@, values, name, i + 1) {
                    Some(id) => named(entries_of(traitenum.named_relation_enum_ids), name)
                        is Some && same_identifier(
                        named(entries_of(traitenum.named_relation_enum_ids), name)->0,
                        id,
                    ),
                    None => named(entries_of(traitenum.named_relation_enum_ids), name) == named(
                        before,
                        name,
                    ),
                } by {
                    let earlier = filing(methods@, values, name, i as int);
                    if !(name == method.name@ && related(*method, values) is Some) {
                        assert(filing(methods@, values, name, i + 1) == earlier);
                    }
                }
            }
            i += 1;
        }
    }
}

/// Collects the parts of a `TraitEnum`.
pub struct TraitEnumBuilder<D, S> {
    pub identifier: Option<Identifier>,
    pub variants: Option<Vec<Variant<D, S>>>,
    pub named_relation_enum_ids: Option<Vec<(String, Identifier)>>,
}

/// The variants of an optional list.
pub open spec fn variants_of<D, S>(list: Option<Vec<Variant<D, S>>>) -> Seq<Variant<D, S>> {
    match list {
        Some(v) => v@,
        None => Seq::empty(),
    }
}

impl<D, S> TraitEnumBuilder<D, S> {
    pub fn new() -> (r: Self)
        ensures
            r.identifier is None,
            r.variants is None,
            r.named_relation_enum_ids is None,
    {
        TraitEnumBuilder { identifier: None, variants: None, named_relation_enum_ids: None }
    }

    pub fn identifier(&mut self, identifier: Identifier) -> (r: &mut Self)
        ensures
            *r == (TraitEnumBuilder { identifier: Some(identifier), ..*old(self) }),
            *final(self) == *final(r),
    {
        self.identifier = Some(identifier);
        self
    }

    /// Adds a variant after those already there.
    pub fn variant(&mut self, variant: Variant<D, S>) -> (r: &mut Self)
        ensures
            r.identifier == old(self).identifier,
            r.named_relation_enum_ids == old(self).named_relation_enum_ids,
            r.variants is Some,
            variants_of(r.variants) == variants_of(old(self).variants).push(variant),
            *final(self) == *final(r),
    {
        let mut variants = match self.variants.take() {
            Some(variants) => variants,
            None => Vec::new(),
        };
        variants.push(variant);
        self.variants = Some(variants);
        self
    }

    pub fn has_relation_enum(&self, relation_name: &str) -> (r: bool)
        ensures
            r == named(entries_of(self.named_relation_enum_ids), relation_name@) is Some,
    {
        match &self.named_relation_enum_ids {
            Some(ids) => find_named(ids, relation_name).is_some(),
            None => false,
        }
    }

    /// Files the enum on the other side of a relation under the name of the
    /// method.
    pub fn relation_enum(&mut self, relation_name: String, enum_identifier: Identifier) -> (r:
        &mut Self)
        ensures
            r.identifier == old(self).identifier,
            r.variants == old(self).variants,
            r.named_relation_enum_ids is Some,
            entries_of(r.named_relation_enum_ids) == filed(
                entries_of(old(self).named_relation_enum_ids),
                relation_name,
                enum_identifier,
            ),
            *final(self) == *final(r),
    {
        let mut ids = match self.named_relation_enum_ids.take() {
            Some(ids) => ids,
            None => Vec::new(),
        };
        file_named(&mut ids, relation_name, enum_identifier);
        self.named_relation_enum_ids = Some(ids);
        self
    }

    /// Builds the enum. The identifier must be set.
    pub fn build(self) -> (r: TraitEnum<D, S>)
        requires
            self.identifier is Some,
        ensures
            r.identifier == self.identifier->0,
            r.variants@ == variants_of(self.variants),
            r.named_relation_enum_ids@ == entries_of(self.named_relation_enum_ids),
    {
        let identifier = match self.identifier {
            Some(identifier) => identifier,
            None => Identifier::new(Vec::new(), String::new()),
        };
        let variants = match self.variants {
            Some(variants) => variants,
            None => Vec::new(),
        };
        let ids = match self.named_relation_enum_ids {
            Some(ids) => ids,
            None => Vec::new(),
        };
        TraitEnum::new(identifier, variants, ids)
    }
}

} // verus!
