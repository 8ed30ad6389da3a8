//! How the value that a method returns for each variant is defined.
//!
//! The two floating-point types stand here as type parameters: what a
//! definition holds of them it carries, and what it computes of them it asks
//! of `PresetNumber`.

use vstd::prelude::*;
use crate::text::same;
use crate::traitenum::model::{
    BoolDefinition, Dispatch, FieldlessEnumDefinition, Identifier, NumberDefinition, NumberPreset,
    RelationDefinition, RelationNature, ReturnType, StaticStrDefinition, TypeDefinition,
};
use crate::traitenum::model::number::PresetNumber;

verus! {

/// A value that a method returns for a variant. `D` and `S` are the types of
/// the double and single precision numbers.
#[derive(Debug, PartialEq)]
pub enum VariantValue<D, S> {
    Bool(bool),
    StaticStr(String),
    UnsignedInteger64(u64),
    Integer64(i64),
    Float64(D),
    UnsignedInteger32(u32),
    Integer32(i32),
    Float32(S),
    UnsignedSize(usize),
    Byte(u8),
    EnumVariant(Identifier),
    Relation(Identifier),
    Type(Identifier),
}

/// The definition of a method, by the type that the method returns.
#[derive(Debug, PartialEq)]
pub enum Definition<D, S> {
    Bool(BoolDefinition),
    StaticStr(StaticStrDefinition),
    UnsignedSize(NumberDefinition<usize>),
    UnsignedInteger64(NumberDefinition<u64>),
    Integer64(NumberDefinition<i64>),
    Float64(NumberDefinition<D>),
    UnsignedInteger32(NumberDefinition<u32>),
    Integer32(NumberDefinition<i32>),
    Float32(NumberDefinition<S>),
    Byte(NumberDefinition<u8>),
    FieldlessEnum(FieldlessEnumDefinition),
    Relation(RelationDefinition),
    Type(TypeDefinition),
}

impl<N: PresetNumber> NumberDefinition<N> {
    /// The number that the preset gives for a position: none without a preset,
    /// the position itself for `Ordinal`, and for `Serial` the start plus the
    /// position times the increment, where both are set.
    pub open spec fn spec_preset_value(&self, ordinal: usize) -> Option<N> {
        match self.preset {
            None => None,
            Some(NumberPreset::Ordinal) => N::spec_from_ordinal(ordinal),
            Some(NumberPreset::Serial) => if self.start is Some && self.increment is Some {
                N::spec_serial(self.start->0, ordinal, self.increment->0)
            } else {
                None
            },
        }
    }

    pub fn preset_value(&self, ordinal: usize) -> (r: Option<N>)
        ensures
            r == self.spec_preset_value(ordinal),
    {
        match self.preset {
            None => None,
            Some(NumberPreset::Ordinal) => N::from_ordinal(ordinal),
            Some(NumberPreset::Serial) => match (self.start, self.increment) {
                (Some(start), Some(increment)) => N::serial(start, ordinal, increment),
                _ => None,
            },
        }
    }
}

/// The name under which a definition for a return type is written: `Bool`,
/// `Str`, `Num`, `Rel` or `Enum`. The catch-all `Type` has none.
pub open spec fn definition_name_of(return_type: ReturnType) -> Option<Seq<char>> {
    match return_type {
        ReturnType::Bool => Some("Bool"@),
        ReturnType::StaticStr => Some("Str"@),
        ReturnType::BoxedTrait | ReturnType::BoxedTraitIterator | ReturnType::AssociatedType => Some(
            "Rel"@,
        ),
        ReturnType::Enum => Some("Enum"@),
        ReturnType::Type => None,
        _ => Some("Num"@),
    }
}

/// True when a definition for the return type names something, so that an
/// identifier must come with it.
pub open spec fn wants_identifier(return_type: ReturnType) -> bool {
    !return_type.primitive()
}

pub open spec fn incompatible_text(name: Seq<char>, return_type: ReturnType) -> Seq<char> {
    "Definition type `"@ + name + "` is incompatible with return type `"@ + return_type.spec_text()
        + "`"@
}

pub open spec fn missing_identifier_text(return_type: ReturnType) -> Seq<char> {
    match return_type {
        ReturnType::BoxedTrait => "Missing Identifier for ReturnType::BoxedTrait"@,
        ReturnType::BoxedTraitIterator => "Missing Identifier for ReturnType::BoxedTraitIterator"@,
        ReturnType::AssociatedType => "Missing Identifier for ReturnType::AssociatedType"@,
        ReturnType::Enum => "Missing Identifier for ReturnType::Enum"@,
        _ => "Missing Identifier for ReturnType::Type"@,
    }
}

pub open spec fn unknown_type_text(name: Seq<char>, identifier: Seq<char>) -> Seq<char> {
    "Unknown definition type `"@ + name + "` for return signature: "@ + identifier
}

pub open spec fn undetermined_text(identifier: Seq<char>) -> Seq<char> {
    "Unable to determine implied definition type for return signature: "@ + identifier
}

/// Why no definition can be started for a return type, if none can: the name
/// given does not belong to the return type; or the identifier is missing; or,
/// for the catch-all `Type`, the name is not `Enum` or is missing.
pub open spec fn partial_objection(
    name: Option<Seq<char>>,
    return_type: ReturnType,
    identifier: Option<Seq<char>>,
) -> Option<Seq<char>> {
    if definition_name_of(return_type) is Some && name is Some && name->0 != definition_name_of(
        return_type,
    )->0 {
        Some(incompatible_text(name->0, return_type))
    } else if wants_identifier(return_type) && identifier is None {
        Some(missing_identifier_text(return_type))
    } else if return_type == ReturnType::Type {
        if name is None {
            Some(undetermined_text(identifier->0))
        } else if name->0 != "Enum"@ {
            Some(unknown_type_text(name->0, identifier->0))
        } else {
            None
        }
    } else {
        None
    }
}

/// The text of an optional identifier.
pub open spec fn identifier_text(identifier: Option<Identifier>) -> Option<Seq<char>> {
    match identifier {
        Some(id) => Some(id.spec_text()),
        None => None,
    }
}

/// The text of an optional string slice.
pub open spec fn name_text(name: Option<&str>) -> Option<Seq<char>> {
    match name {
        Some(n) => Some(n@),
        None => None,
    }
}

impl<D: PresetNumber, S: PresetNumber> Definition<D, S> {
    /// True of the definition that is started for a return type: nothing is set
    /// in it but what the return type implies. A boxed trait is dispatched as
    /// such, an iterator of them is one-to-many beside, and an associated type
    /// is dispatched as `Other`.
    pub open spec fn started(self, return_type: ReturnType, identifier: Option<Identifier>) -> bool {
        match return_type {
            ReturnType::Bool => self matches Definition::Bool(d) && d.default is None,
            ReturnType::StaticStr => self matches Definition::StaticStr(d) && d.default is None
                && d.preset is None,
            ReturnType::UnsignedSize => self matches Definition::UnsignedSize(d) && d.default
                is None && d.preset is None && d.start is None && d.increment is None,
            ReturnType::UnsignedInteger64 => self matches Definition::UnsignedInteger64(d)
                && d.default is None && d.preset is None && d.start is None && d.increment is None,
            ReturnType::Integer64 => self matches Definition::Integer64(d) && d.default is None
                && d.preset is None && d.start is None && d.increment is None,
            ReturnType::Float64 => self matches Definition::Float64(d) && d.default is None
                && d.preset is None && d.start is None && d.increment is None,
            ReturnType::UnsignedInteger32 => self matches Definition::UnsignedInteger32(d)
                && d.default is None && d.preset is None && d.start is None && d.increment is None,
            ReturnType::Integer32 => self matches Definition::Integer32(d) && d.default is None
                && d.preset is None && d.start is None && d.increment is None,
            ReturnType::Float32 => self matches Definition::Float32(d) && d.default is None
                && d.preset is None && d.start is None && d.increment is None,
            ReturnType::Byte => self matches Definition::Byte(d) && d.default is None && d.preset
                is None && d.start is None && d.increment is None,
            ReturnType::BoxedTrait => self matches Definition::Relation(d) && d.identifier
                == identifier->0 && d.dispatch == Some(Dispatch::BoxedTrait) && d.nature is None,
            ReturnType::BoxedTraitIterator => self matches Definition::Relation(d) && d.identifier
                == identifier->0 && d.dispatch == Some(Dispatch::BoxedTrait) && d.nature == Some(
                RelationNature::OneToMany,
            ),
            ReturnType::AssociatedType => self matches Definition::Relation(d) && d.identifier
                == identifier->0 && d.dispatch == Some(Dispatch::Other) && d.nature is None,
            ReturnType::Enum | ReturnType::Type => self matches Definition::FieldlessEnum(d)
                && d.identifier == identifier->0 && d.default is None,
        }
    }

    /// Starts the definition for a return type. The name of the definition may
    /// be given or left to the return type; the identifier is for the return
    /// types that name something.
    pub fn partial(
        definition_name: Option<&str>,
        return_type: ReturnType,
        return_identifier: Option<Identifier>,
    ) -> (r: Result<Self, String>)
        ensures
            match partial_objection(
                name_text(definition_name),
                return_type,
                identifier_text(return_identifier),
            ) {
                Some(message) => r is Err && r->Err_0@ == message,
                None => r is Ok && r->Ok_0.started(return_type, return_identifier),
            },
    {
        let expected: Option<&'static str> = match return_type {
            ReturnType::Bool => Some("Bool"),
            ReturnType::StaticStr => Some("Str"),
            ReturnType::BoxedTrait
            | ReturnType::BoxedTraitIterator
            | ReturnType::AssociatedType => Some("Rel"),
            ReturnType::Enum => Some("Enum"),
            ReturnType::Type => None,
            _ => Some("Num"),
        };
        match (expected, definition_name) {
            (Some(expected), Some(name)) => {
                if !same(name, expected) {
                    let message = String::from_str("Definition type `").concat(name).concat(
                        "` is incompatible with return type `",
                    ).concat(return_type.to_text()).concat("`");
                    assert(message@ =~= incompatible_text(name@, return_type));
                    return Err(message);
                }
            },
            _ => {},
        }
        let result = match return_type {
            ReturnType::Bool => Definition::Bool(BoolDefinition::new()),
            ReturnType::StaticStr => Definition::StaticStr(StaticStrDefinition::new()),
            ReturnType::UnsignedSize => Definition::UnsignedSize(NumberDefinition::new()),
            ReturnType::UnsignedInteger64 => Definition::UnsignedInteger64(NumberDefinition::new()),
            ReturnType::Integer64 => Definition::Integer64(NumberDefinition::new()),
            ReturnType::Float64 => Definition::Float64(NumberDefinition::new()),
            ReturnType::UnsignedInteger32 => Definition::UnsignedInteger32(NumberDefinition::new()),
            ReturnType::Integer32 => Definition::Integer32(NumberDefinition::new()),
            ReturnType::Float32 => Definition::Float32(NumberDefinition::new()),
            ReturnType::Byte => Definition::Byte(NumberDefinition::new()),
            ReturnType::BoxedTrait => {
                match return_identifier {
                    None => {
                        return Err(
                            String::from_str("Missing Identifier for ReturnType::BoxedTrait"),
                        );
                    },
                    Some(id) => {
                        let mut definition = RelationDefinition::new(id);
                        definition.dispatch = Some(Dispatch::BoxedTrait);
                        Definition::Relation(definition)
                    },
                }
            },
            ReturnType::BoxedTraitIterator => {
                match return_identifier {
                    None => {
                        return Err(
                            String::from_str(
                                "Missing Identifier for ReturnType::BoxedTraitIterator",
                            ),
                        );
                    },
                    Some(id) => {
                        let mut definition = RelationDefinition::new(id);
                        definition.dispatch = Some(Dispatch::BoxedTrait);
                        definition.nature = Some(RelationNature::OneToMany);
                        Definition::Relation(definition)
                    },
                }
            },
            ReturnType::AssociatedType => {
                match return_identifier {
                    None => {
                        return Err(
                            String::from_str("Missing Identifier for ReturnType::AssociatedType"),
                        );
                    },
                    Some(id) => {
                        let mut definition = RelationDefinition::new(id);
                        definition.dispatch = Some(Dispatch::Other);
                        Definition::Relation(definition)
                    },
                }
            },
            ReturnType::Enum => {
                match return_identifier {
                    None => {
                        return Err(String::from_str("Missing Identifier for ReturnType::Enum"));
                    },
                    Some(id) => Definition::FieldlessEnum(FieldlessEnumDefinition::new(id)),
                }
            },
            ReturnType::Type => {
                match return_identifier {
                    None => {
                        return Err(String::from_str("Missing Identifier for ReturnType::Type"));
                    },
                    Some(id) => {
                        match definition_name {
                            Some(name) => {
                                if same(name, "Enum") {
                                    Definition::FieldlessEnum(FieldlessEnumDefinition::new(id))
                                } else {
                                    let text = id.to_text();
                                    let message = String::from_str(
                                        "Unknown definition type `",
                                    ).concat(name).concat("` for return signature: ").concat(
                                        text.as_str(),
                                    );
                                    assert(message@ =~= unknown_type_text(name@, id.spec_text()));
                                    return Err(message);
                                }
                            },
                            None => {
                                let text = id.to_text();
                                let message = String::from_str(
                                    "Unable to determine implied definition type for return signature: ",
                                ).concat(text.as_str());
                                return Err(message);
                            },
                        }
                    },
                }
            },
        };
        Ok(result)
    }

    pub open spec fn spec_has_default(&self) -> bool {
        match self {
            Definition::Bool(d) => d.default is Some,
            Definition::StaticStr(d) => d.default is Some,
            Definition::UnsignedSize(d) => d.default is Some,
            Definition::UnsignedInteger64(d) => d.default is Some,
            Definition::Integer64(d) => d.default is Some,
            Definition::Float64(d) => d.default is Some,
            Definition::UnsignedInteger32(d) => d.default is Some,
            Definition::Integer32(d) => d.default is Some,
            Definition::Float32(d) => d.default is Some,
            Definition::Byte(d) => d.default is Some,
            Definition::FieldlessEnum(d) => d.default is Some,
            Definition::Relation(_) => false,
            Definition::Type(_) => false,
        }
    }

    pub fn has_default(&self) -> (r: bool)
        ensures
            r == self.spec_has_default(),
    {
        match self {
            Definition::Bool(d) => d.default.is_some(),
            Definition::StaticStr(d) => d.default.is_some(),
            Definition::UnsignedSize(d) => d.default.is_some(),
            Definition::UnsignedInteger64(d) => d.default.is_some(),
            Definition::Integer64(d) => d.default.is_some(),
            Definition::Float64(d) => d.default.is_some(),
            Definition::UnsignedInteger32(d) => d.default.is_some(),
            Definition::Integer32(d) => d.default.is_some(),
            Definition::Float32(d) => d.default.is_some(),
            Definition::Byte(d) => d.default.is_some(),
            Definition::FieldlessEnum(d) => d.default.is_some(),
            Definition::Relation(_) => false,
            Definition::Type(_) => false,
        }
    }

    /// True when `value` is the default of this definition.
    pub open spec fn default_is(&self, value: VariantValue<D, S>) -> bool {
        match self {
            Definition::Bool(d) => value == VariantValue::<D, S>::Bool(d.default->0),
            Definition::StaticStr(d) => value matches VariantValue::StaticStr(s) && s@ == d.default->0@,
            Definition::UnsignedSize(d) => value == VariantValue::<D, S>::UnsignedSize(d.default->0),
            Definition::UnsignedInteger64(d) => value == VariantValue::<D, S>::UnsignedInteger64(
                d.default->0,
            ),
            Definition::Integer64(d) => value == VariantValue::<D, S>::Integer64(d.default->0),
            Definition::Float64(d) => value == VariantValue::<D, S>::Float64(d.default->0),
            Definition::UnsignedInteger32(d) => value == VariantValue::<D, S>::UnsignedInteger32(
                d.default->0,
            ),
            Definition::Integer32(d) => value == VariantValue::<D, S>::Integer32(d.default->0),
            Definition::Float32(d) => value == VariantValue::<D, S>::Float32(d.default->0),
            Definition::Byte(d) => value == VariantValue::<D, S>::Byte(d.default->0),
            Definition::FieldlessEnum(d) => value matches VariantValue::EnumVariant(id) && id.path@
                == d.default->0.path@ && id.name == d.default->0.name,
            Definition::Relation(_) => false,
            Definition::Type(_) => false,
        }
    }

    /// The default as a value, where one is set.
    pub fn default(&self) -> (r: Option<VariantValue<D, S>>)
        ensures
            r is Some == self.spec_has_default(),
            r is Some ==> self.default_is(r->0),
    {
        match self {
            Definition::Bool(d) => match d.default {
                Some(b) => Some(VariantValue::Bool(b)),
                None => None,
            },
            Definition::StaticStr(d) => match &d.default {
                Some(s) => Some(VariantValue::StaticStr(s.clone())),
                None => None,
            },
            Definition::UnsignedSize(d) => match d.default {
                Some(n) => Some(VariantValue::UnsignedSize(n)),
                None => None,
            },
            Definition::UnsignedInteger64(d) => match d.default {
                Some(n) => Some(VariantValue::UnsignedInteger64(n)),
                None => None,
            },
            Definition::Integer64(d) => match d.default {
                Some(n) => Some(VariantValue::Integer64(n)),
                None => None,
            },
            Definition::Float64(d) => match d.default {
                Some(n) => Some(VariantValue::Float64(n)),
                None => None,
            },
            Definition::UnsignedInteger32(d) => match d.default {
                Some(n) => Some(VariantValue::UnsignedInteger32(n)),
                None => None,
            },
            Definition::Integer32(d) => match d.default {
                Some(n) => Some(VariantValue::Integer32(n)),
                None => None,
            },
            Definition::Float32(d) => match d.default {
                Some(n) => Some(VariantValue::Float32(n)),
                None => None,
            },
            Definition::Byte(d) => match d.default {
                Some(n) => Some(VariantValue::Byte(n)),
                None => None,
            },
            Definition::FieldlessEnum(d) => match &d.default {
                Some(id) => Some(VariantValue::EnumVariant(id.clone())),
                None => None,
            },
            Definition::Relation(_) => None,
            Definition::Type(_) => None,
        }
    }

    pub open spec fn spec_has_preset(&self) -> bool {
        match self {
            Definition::StaticStr(d) => d.preset is Some,
            Definition::UnsignedSize(d) => d.preset is Some,
            Definition::UnsignedInteger64(d) => d.preset is Some,
            Definition::Integer64(d) => d.preset is Some,
            Definition::Float64(d) => d.preset is Some,
            Definition::UnsignedInteger32(d) => d.preset is Some,
            Definition::Integer32(d) => d.preset is Some,
            Definition::Float32(d) => d.preset is Some,
            Definition::Byte(d) => d.preset is Some,
            _ => false,
        }
    }

    pub fn has_preset(&self) -> (r: bool)
        ensures
            r == self.spec_has_preset(),
    {
        match self {
            Definition::Bool(_) => false,
            Definition::StaticStr(d) => d.preset.is_some(),
            Definition::UnsignedSize(d) => d.preset.is_some(),
            Definition::UnsignedInteger64(d) => d.preset.is_some(),
            Definition::Integer64(d) => d.preset.is_some(),
            Definition::Float64(d) => d.preset.is_some(),
            Definition::UnsignedInteger32(d) => d.preset.is_some(),
            Definition::Integer32(d) => d.preset.is_some(),
            Definition::Float32(d) => d.preset.is_some(),
            Definition::Byte(d) => d.preset.is_some(),
            Definition::FieldlessEnum(_) => false,
            Definition::Relation(_) => false,
            Definition::Type(_) => false,
        }
    }

    /// True when `value` is what the preset of this definition gives for the
    /// variant of that name at that position.
    pub open spec fn preset_is(&self, variant_name: Seq<char>, ordinal: usize, value: VariantValue<D, S>) -> bool {
        match self {
            Definition::StaticStr(d) => d.preset is Some && (value matches VariantValue::StaticStr(s) && s@
                == d.preset->0.spec_convert(variant_name)),
            Definition::UnsignedSize(d) => d.spec_preset_value(ordinal) is Some && value
                == VariantValue::<D, S>::UnsignedSize(d.spec_preset_value(ordinal)->0),
            Definition::UnsignedInteger64(d) => d.spec_preset_value(ordinal) is Some && value
                == VariantValue::<D, S>::UnsignedInteger64(d.spec_preset_value(ordinal)->0),
            Definition::Integer64(d) => d.spec_preset_value(ordinal) is Some && value == VariantValue::<
                D,
                S,
            >::Integer64(d.spec_preset_value(ordinal)->0),
            Definition::Float64(d) => d.spec_preset_value(ordinal) is Some && value == VariantValue::<
                D,
                S,
            >::Float64(d.spec_preset_value(ordinal)->0),
            Definition::UnsignedInteger32(d) => d.spec_preset_value(ordinal) is Some && value
                == VariantValue::<D, S>::UnsignedInteger32(d.spec_preset_value(ordinal)->0),
            Definition::Integer32(d) => d.spec_preset_value(ordinal) is Some && value == VariantValue::<
                D,
                S,
            >::Integer32(d.spec_preset_value(ordinal)->0),
            Definition::Float32(d) => d.spec_preset_value(ordinal) is Some && value == VariantValue::<
                D,
                S,
            >::Float32(d.spec_preset_value(ordinal)->0),
            Definition::Byte(d) => d.spec_preset_value(ordinal) is Some && value == VariantValue::<
                D,
                S,
            >::Byte(d.spec_preset_value(ordinal)->0),
            _ => false,
        }
    }

    /// The value that the preset gives for a variant: for a text, the name of
    /// the variant in the preset's case; for a number, what the preset makes
    /// of the position. `None` where no preset is set or the number does not
    /// exist in its type.
    pub fn preset(&self, variant_name: &str, ordinal: usize) -> (r: Option<VariantValue<D, S>>)
        ensures
            r is Some == (exists|value: VariantValue<D, S>| self.preset_is(variant_name@, ordinal, value)),
            r is Some ==> self.preset_is(variant_name@, ordinal, r->0),
    {
        let r = match self {
            Definition::Bool(_) => None,
            Definition::StaticStr(d) => match &d.preset {
                Some(p) => Some(VariantValue::StaticStr(p.convert(variant_name))),
                None => None,
            },
            Definition::UnsignedSize(d) => match d.preset_value(ordinal) {
                Some(n) => Some(VariantValue::UnsignedSize(n)),
                None => None,
            },
            Definition::UnsignedInteger64(d) => match d.preset_value(ordinal) {
                Some(n) => Some(VariantValue::UnsignedInteger64(n)),
                None => None,
            },
            Definition::Integer64(d) => match d.preset_value(ordinal) {
                Some(n) => Some(VariantValue::Integer64(n)),
                None => None,
            },
            Definition::Float64(d) => match d.preset_value(ordinal) {
                Some(n) => Some(VariantValue::Float64(n)),
                None => None,
            },
            Definition::UnsignedInteger32(d) => match d.preset_value(ordinal) {
                Some(n) => Some(VariantValue::UnsignedInteger32(n)),
                None => None,
            },
            Definition::Integer32(d) => match d.preset_value(ordinal) {
                Some(n) => Some(VariantValue::Integer32(n)),
                None => None,
            },
            Definition::Float32(d) => match d.preset_value(ordinal) {
                Some(n) => Some(VariantValue::Float32(n)),
                None => None,
            },
            Definition::Byte(d) => match d.preset_value(ordinal) {
                Some(n) => Some(VariantValue::Byte(n)),
                None => None,
            },
            Definition::FieldlessEnum(_) => None,
            Definition::Relation(_) => None,
            Definition::Type(_) => None,
        };
        proof {
            if r is Some {
                assert(self.preset_is(variant_name@, ordinal, r->0));
            }
        }
        r
    }

    pub fn has_default_or_preset(&self) -> (r: bool)
        ensures
            r == (self.spec_has_default() || self.spec_has_preset()),
    {
        self.has_default() || self.has_preset()
    }

    /// The default where one is set, else what the preset gives.
    pub fn default_or_preset(&self, variant_name: &str, ordinal: usize) -> (r: Option<VariantValue<D, S>>)
        ensures
            self.spec_has_default() ==> r is Some && self.default_is(r->0),
            !self.spec_has_default() ==> (r is Some == (exists|value: VariantValue<D, S>|
                self.preset_is(variant_name@, ordinal, value))) && (r is Some ==> self.preset_is(
                variant_name@,
                ordinal,
                r->0,
            )),
    {
        if self.has_default() {
            self.default()
        } else {
            self.preset(variant_name, ordinal)
        }
    }

    /// Whether each variant must state a value of its own: not for a relation
    /// that is one-to-one or many-to-one.
    pub open spec fn spec_needs_value(&self) -> bool {
        match self {
            Definition::Relation(d) => !(d.nature == Some(RelationNature::OneToOne) || d.nature
                == Some(RelationNature::ManyToOne)),
            _ => true,
        }
    }

    pub fn needs_value(&self) -> (r: bool)
        ensures
            r == self.spec_needs_value(),
    {
        match self {
            Definition::Relation(d) => match d.nature {
                Some(RelationNature::OneToOne) => false,
                Some(RelationNature::OneToMany) => true,
                Some(RelationNature::ManyToOne) => false,
                None => true,
            },
            _ => true,
        }
    }

    /// What `validate` answers: a default and a preset exclude each other; the
    /// rest is up to the kind of definition.
    pub open spec fn spec_validate(&self) -> Result<(), &'static str> {
        if self.spec_has_default() && self.spec_has_preset() {
            Err("Both a default and a preset have been set")
        } else {
            match self {
                Definition::UnsignedSize(d) => d.spec_validate(),
                Definition::UnsignedInteger64(d) => d.spec_validate(),
                Definition::Integer64(d) => d.spec_validate(),
                Definition::Float64(d) => d.spec_validate(),
                Definition::UnsignedInteger32(d) => d.spec_validate(),
                Definition::Integer32(d) => d.spec_validate(),
                Definition::Float32(d) => d.spec_validate(),
                Definition::Byte(d) => d.spec_validate(),
                Definition::Relation(d) => d.spec_validate(),
                _ => Ok(()),
            }
        }
    }

    /// Checks the definition. A definition of the kind `Type` is never checked:
    /// none is ever in use.
    pub fn validate(&self) -> (r: Result<(), &'static str>)
        requires
            !(self is Type),
        ensures
            r is Ok == self.spec_validate() is Ok,
            r is Err ==> r == self.spec_validate(),
    {
        if self.has_default() && self.has_preset() {
            return Err("Both a default and a preset have been set");
        }
        match self {
            Definition::Bool(_) => Ok(()),
            Definition::StaticStr(_) => Ok(()),
            Definition::UnsignedSize(d) => d.validate(),
            Definition::UnsignedInteger64(d) => d.validate(),
            Definition::Integer64(d) => d.validate(),
            Definition::Float64(d) => d.validate(),
            Definition::UnsignedInteger32(d) => d.validate(),
            Definition::Integer32(d) => d.validate(),
            Definition::Float32(d) => d.validate(),
            Definition::Byte(d) => d.validate(),
            Definition::FieldlessEnum(d) => d.validate(),
            Definition::Relation(d) => d.validate(),
            Definition::Type(_) => Ok(()),
        }
    }

    /// The relation inside, to be changed. The definition must be one of a
    /// relation.
    pub fn get_relation_definition_mut(&mut self) -> (r: &mut RelationDefinition)
        requires
            *old(self) is Relation,
        ensures
            *r == (*old(self))->Relation_0,
            *final(self) == Definition::<D, S>::Relation(*final(r)),
    {
        match self {
            Definition::Relation(d) => d,
            _ => vstd::pervasive::unreached(),
        }
    }

    /// The relation inside. The definition must be one of a relation.
    pub fn get_relation_definition(&self) -> (r: &RelationDefinition)
        requires
            self is Relation,
        ensures
            *r == self->Relation_0,
    {
        match self {
            Definition::Relation(d) => d,
            _ => vstd::pervasive::unreached(),
        }
    }
}

} // verus!
