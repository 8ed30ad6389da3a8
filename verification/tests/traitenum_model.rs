use asmov_common::traitenum::error::Errors;
use asmov_common::traitenum::model::{
    AttributeValue, BoolDefinition, Definition, Dispatch, EnumTrait, FieldlessEnumDefinition,
    Identifier, Method, NumberDefinition, NumberPreset, PresetNumber, RelationDefinition,
    RelationNature, ReturnType, StaticStrDefinition, StringPreset, TraitEnumBuilder,
    TypeDefinition, VariantBuilder, VariantValue,
};

// The two floating-point types, and what they do with a position.
#[derive(Debug, Clone, Copy, PartialEq)]
struct Double(f64);

#[derive(Debug, Clone, Copy, PartialEq)]
struct Single(f32);

impl PresetNumber for Double {
    fn spec_from_ordinal(ordinal: usize) -> Option<Double> {
        Self::from_ordinal(ordinal)
    }

    fn spec_serial(start: Double, ordinal: usize, increment: Double) -> Option<Double> {
        Self::serial(start, ordinal, increment)
    }

    fn from_ordinal(ordinal: usize) -> Option<Double> {
        Some(Double(ordinal as f64))
    }

    fn serial(start: Double, ordinal: usize, increment: Double) -> Option<Double> {
        Some(Double(start.0 + (ordinal as f64 * increment.0)))
    }
}

impl PresetNumber for Single {
    fn spec_from_ordinal(ordinal: usize) -> Option<Single> {
        Self::from_ordinal(ordinal)
    }

    fn spec_serial(start: Single, ordinal: usize, increment: Single) -> Option<Single> {
        Self::serial(start, ordinal, increment)
    }

    fn from_ordinal(ordinal: usize) -> Option<Single> {
        Some(Single(ordinal as f32))
    }

    fn serial(start: Single, ordinal: usize, increment: Single) -> Option<Single> {
        Some(Single(start.0 + (ordinal as f32 * increment.0)))
    }
}

type Def = Definition<Double, Single>;
type Val = VariantValue<Double, Single>;

fn id(path: &[&str], name: &str) -> Identifier {
    Identifier::new(path.iter().map(|p| p.to_string()).collect(), name.to_string())
}

#[test]
fn identifiers() {
    let a = id(&["crate_name", "module"], "Type");
    assert_eq!("crate_name::module::Type", a.to_text());
    assert_eq!("Type", a.name());
    assert_eq!(["crate_name".to_string(), "module".to_string()], a.path());
    assert_eq!("Lonely", id(&[], "Lonely").to_text());

    let base = a.base().unwrap();
    assert_eq!(id(&["crate_name"], "module"), base);
    assert_eq!(None, id(&[], "Lonely").base());

    let both = id(&["a"], "b").append(id(&["c"], "d"));
    assert_eq!(id(&["a", "b", "c"], "d"), both);
    assert_eq!("a::b::c::d", both.to_text());
    assert_eq!(a, a.clone());
}

#[test]
fn return_types_as_text() {
    let primitives = [
        (ReturnType::Bool, "bool"),
        (ReturnType::StaticStr, "&'static str"),
        (ReturnType::UnsignedSize, "usize"),
        (ReturnType::UnsignedInteger64, "u64"),
        (ReturnType::Integer64, "i64"),
        (ReturnType::Float64, "f64"),
        (ReturnType::UnsignedInteger32, "u32"),
        (ReturnType::Integer32, "i32"),
        (ReturnType::Float32, "f32"),
        (ReturnType::Byte, "u8"),
    ];
    for (return_type, text) in primitives {
        assert_eq!(text, return_type.to_text());
        assert_eq!(Some(return_type), ReturnType::parse(text));
    }
    assert_eq!("Box<dyn Trait>", ReturnType::BoxedTrait.to_text());
    assert_eq!("Box<dyn Iterator<Item = Box<dyn Trait>>>", ReturnType::BoxedTraitIterator.to_text());
    assert_eq!("<Self::Type>", ReturnType::AssociatedType.to_text());
    assert_eq!("<Enum>", ReturnType::Enum.to_text());
    assert_eq!("<Type>", ReturnType::Type.to_text());
    assert_eq!(None, ReturnType::parse("Box<dyn Trait>"));
    assert_eq!(None, ReturnType::parse("String"));
    assert_eq!(None, ReturnType::parse(""));
}

#[test]
fn presets_and_natures_from_text() {
    assert_eq!(Some(NumberPreset::Ordinal), NumberPreset::parse("Ordinal"));
    assert_eq!(Some(NumberPreset::Serial), NumberPreset::parse("Serial"));
    assert_eq!(None, NumberPreset::parse("serial"));
    assert_eq!(Some(RelationNature::OneToOne), RelationNature::parse("OnetoOne"));
    assert_eq!(None, RelationNature::parse("OneToOne"));
    assert_eq!(Some(RelationNature::OneToMany), RelationNature::parse("OneToMany"));
    assert_eq!(Some(RelationNature::ManyToOne), RelationNature::parse("ManyToOne"));
    assert_eq!(Some(Dispatch::BoxedTrait), Dispatch::parse("BoxedTrait"));
    assert_eq!(Some(Dispatch::Other), Dispatch::parse("Other"));
    assert_eq!(None, Dispatch::parse("Else"));
    for (name, preset) in [
        ("Variant", StringPreset::Variant),
        ("Snake", StringPreset::Snake),
        ("UpperSnake", StringPreset::UpperSnake),
        ("Kebab", StringPreset::Kebab),
        ("UpperKebab", StringPreset::UpperKebab),
        ("Camel", StringPreset::Camel),
        ("Title", StringPreset::Title),
        ("Upper", StringPreset::Upper),
        ("Lower", StringPreset::Lower),
        ("Flat", StringPreset::Flat),
        ("UpperFlat", StringPreset::UpperFlat),
        ("Train", StringPreset::Train),
    ] {
        assert_eq!(Some(preset), StringPreset::parse(name));
    }
    assert_eq!(None, StringPreset::parse("Pascal"));
}

#[test]
fn string_presets_change_the_case() {
    let name = "MyVariantName";
    assert_eq!("MyVariantName", StringPreset::Variant.convert(name));
    assert_eq!("my_variant_name", StringPreset::Snake.convert(name));
    assert_eq!("MY_VARIANT_NAME", StringPreset::UpperSnake.convert(name));
    assert_eq!("my-variant-name", StringPreset::Kebab.convert(name));
    assert_eq!("MY-VARIANT-NAME", StringPreset::UpperKebab.convert(name));
    assert_eq!("myVariantName", StringPreset::Camel.convert(name));
    assert_eq!("My Variant Name", StringPreset::Title.convert(name));
    assert_eq!("MY VARIANT NAME", StringPreset::Upper.convert(name));
    assert_eq!("my variant name", StringPreset::Lower.convert(name));
    assert_eq!("myvariantname", StringPreset::Flat.convert(name));
    assert_eq!("MYVARIANTNAME", StringPreset::UpperFlat.convert(name));
    assert_eq!("My-Variant-Name", StringPreset::Train.convert(name));
}

#[test]
fn simple_definitions() {
    assert_eq!(None, BoolDefinition::new().default);
    assert_eq!(Ok(()), BoolDefinition::new().validate());
    let text = StaticStrDefinition::new();
    assert_eq!((None, None), (text.default, text.preset));
    let e = FieldlessEnumDefinition::new(id(&["a"], "E"));
    assert_eq!(id(&["a"], "E"), e.identifier);
    assert_eq!(None, e.default);
    assert_eq!(Ok(()), e.validate());
    assert_eq!(id(&["a"], "T"), TypeDefinition::new(id(&["a"], "T")).identifier);
}

#[test]
fn number_definitions() {
    let mut n: NumberDefinition<u32> = NumberDefinition::new();
    assert_eq!((None, None, None, None), (n.default, n.preset, n.start, n.increment));
    assert_eq!(Ok(()), n.validate());
    assert_eq!(None, n.preset_value(3));
    n.preset = Some(NumberPreset::Ordinal);
    assert_eq!(Ok(()), n.validate());
    assert_eq!(Some(3), n.preset_value(3));
    n.preset = Some(NumberPreset::Serial);
    assert_eq!(Err("Missing attribute for `Serial` number preset: start"), n.validate());
    assert_eq!(None, n.preset_value(3));
    n.start = Some(100);
    assert_eq!(Err("Missing attribute for `Serial` number preset: increment"), n.validate());
    n.increment = Some(5);
    assert_eq!(Ok(()), n.validate());
    assert_eq!(Some(100), n.preset_value(0));
    assert_eq!(Some(115), n.preset_value(3));
    n.start = Some(u32::MAX - 14);
    assert_eq!(Some(u32::MAX - 4), n.preset_value(2));
    assert_eq!(None, n.preset_value(3));
}

#[test]
fn numbers_of_every_type_from_a_position() {
    assert_eq!(Some(255u8), u8::from_ordinal(255));
    assert_eq!(None, u8::from_ordinal(256));
    assert_eq!(Some(7usize), usize::from_ordinal(7));
    assert_eq!(Some(u64::MAX), u64::from_ordinal(usize::MAX));
    assert_eq!(None, i64::from_ordinal(usize::MAX));
    assert_eq!(Some(i32::MAX), i32::from_ordinal(i32::MAX as usize));
    assert_eq!(None, i32::from_ordinal(i32::MAX as usize + 1));
    assert_eq!(None, u32::from_ordinal(u32::MAX as usize + 1));

    assert_eq!(Some(44u8), u8::serial(2, 21, 2));
    assert_eq!(None, u8::serial(250, 3, 2));
    assert_eq!(Some(-5i64), i64::serial(10, 5, -3));
    assert_eq!(Some(i64::MIN), i64::serial(i64::MIN + 4, 2, -2));
    assert_eq!(None, i64::serial(i64::MIN, 1, -1));
    assert_eq!(Some(i32::MAX), i32::serial(i32::MAX - 6, 3, 2));
    assert_eq!(None, i32::serial(i32::MAX, 1, 1));
    assert_eq!(Some(0i32), i32::serial(i32::MAX, usize::MAX, 0).map(|v| v - i32::MAX));
    assert_eq!(None, u64::serial(1, usize::MAX, u64::MAX));
    assert_eq!(Some(u64::MAX), u64::serial(0, usize::MAX, 1));
    assert_eq!(Some(12usize), usize::serial(2, 5, 2));
    assert_eq!(Some(12u32), u32::serial(2, 5, 2));
}

#[test]
fn relation_definitions() {
    let mut r = RelationDefinition::new(id(&["a"], "Other"));
    assert_eq!(&id(&["a"], "Other"), r.identifier());
    assert_eq!(None, r.dispatch());
    assert_eq!(None, r.nature());
    assert_eq!(Err("Missing property for Rel definition: nature"), r.validate());
    r.dispatch = Some(Dispatch::Other);
    assert_eq!(Err("Dispatch::Other is permanently unimplemented"), r.validate());
    r.dispatch = Some(Dispatch::BoxedTrait);
    assert_eq!(Err("Missing property for Rel definition: nature"), r.validate());
    r.nature = Some(RelationNature::ManyToOne);
    assert_eq!(Ok(()), r.validate());
}

#[test]
fn definitions_start_from_the_return_type() {
    assert_eq!(Ok(Def::Bool(BoolDefinition::new())), Def::partial(None, ReturnType::Bool, None));
    assert_eq!(Ok(Def::Bool(BoolDefinition::new())), Def::partial(Some("Bool"), ReturnType::Bool, None));
    assert_eq!(
        Ok(Def::StaticStr(StaticStrDefinition::new())),
        Def::partial(Some("Str"), ReturnType::StaticStr, None)
    );
    assert_eq!(Ok(Def::Byte(NumberDefinition::new())), Def::partial(Some("Num"), ReturnType::Byte, None));
    assert_eq!(Ok(Def::Float64(NumberDefinition::new())), Def::partial(None, ReturnType::Float64, None));
    assert_eq!(Ok(Def::Float32(NumberDefinition::new())), Def::partial(None, ReturnType::Float32, None));
    assert_eq!(
        Ok(Def::UnsignedSize(NumberDefinition::new())),
        Def::partial(None, ReturnType::UnsignedSize, Some(id(&[], "ignored")))
    );

    let boxed = Def::partial(Some("Rel"), ReturnType::BoxedTrait, Some(id(&["a"], "T"))).unwrap();
    let relation = boxed.get_relation_definition();
    assert_eq!(Some(Dispatch::BoxedTrait), relation.dispatch());
    assert_eq!(None, relation.nature());
    assert_eq!(&id(&["a"], "T"), relation.identifier());

    let many = Def::partial(None, ReturnType::BoxedTraitIterator, Some(id(&["a"], "T"))).unwrap();
    assert_eq!(Some(RelationNature::OneToMany), many.get_relation_definition().nature());
    assert_eq!(Some(Dispatch::BoxedTrait), many.get_relation_definition().dispatch());

    let other = Def::partial(None, ReturnType::AssociatedType, Some(id(&["a"], "T"))).unwrap();
    assert_eq!(Some(Dispatch::Other), other.get_relation_definition().dispatch());

    assert_eq!(
        Ok(Def::FieldlessEnum(FieldlessEnumDefinition::new(id(&["a"], "E")))),
        Def::partial(Some("Enum"), ReturnType::Type, Some(id(&["a"], "E")))
    );
    assert_eq!(
        Ok(Def::FieldlessEnum(FieldlessEnumDefinition::new(id(&["a"], "E")))),
        Def::partial(None, ReturnType::Enum, Some(id(&["a"], "E")))
    );
}

#[test]
fn definitions_that_cannot_be_started() {
    assert_eq!(
        Err("Definition type `Num` is incompatible with return type `bool`".to_string()),
        Def::partial(Some("Num"), ReturnType::Bool, None)
    );
    assert_eq!(
        Err("Definition type `Str` is incompatible with return type `f64`".to_string()),
        Def::partial(Some("Str"), ReturnType::Float64, None)
    );
    assert_eq!(
        Err("Definition type `Enum` is incompatible with return type `Box<dyn Trait>`".to_string()),
        Def::partial(Some("Enum"), ReturnType::BoxedTrait, None)
    );
    assert_eq!(
        Err("Missing Identifier for ReturnType::BoxedTrait".to_string()),
        Def::partial(Some("Rel"), ReturnType::BoxedTrait, None)
    );
    assert_eq!(
        Err("Missing Identifier for ReturnType::BoxedTraitIterator".to_string()),
        Def::partial(None, ReturnType::BoxedTraitIterator, None)
    );
    assert_eq!(
        Err("Missing Identifier for ReturnType::AssociatedType".to_string()),
        Def::partial(None, ReturnType::AssociatedType, None)
    );
    assert_eq!(
        Err("Missing Identifier for ReturnType::Enum".to_string()),
        Def::partial(None, ReturnType::Enum, None)
    );
    assert_eq!(
        Err("Missing Identifier for ReturnType::Type".to_string()),
        Def::partial(Some("Enum"), ReturnType::Type, None)
    );
    assert_eq!(
        Err("Unknown definition type `Rel` for return signature: a::E".to_string()),
        Def::partial(Some("Rel"), ReturnType::Type, Some(id(&["a"], "E")))
    );
    assert_eq!(
        Err("Unable to determine implied definition type for return signature: a::E".to_string()),
        Def::partial(None, ReturnType::Type, Some(id(&["a"], "E")))
    );
}

#[test]
fn defaults_and_presets_of_definitions() {
    let mut flag = BoolDefinition::new();
    assert!(!Def::Bool(BoolDefinition::new()).has_default());
    flag.default = Some(true);
    let flag = Def::Bool(flag);
    assert!(flag.has_default());
    assert!(!flag.has_preset());
    assert!(flag.has_default_or_preset());
    assert_eq!(Some(Val::Bool(true)), flag.default());
    assert_eq!(None, flag.preset("Alpha", 0));
    assert_eq!(Some(Val::Bool(true)), flag.default_or_preset("Alpha", 0));
    assert_eq!(Ok(()), flag.validate());
    assert!(flag.needs_value());

    let mut text = StaticStrDefinition::new();
    text.preset = Some(StringPreset::Kebab);
    let text = Def::StaticStr(text);
    assert!(!text.has_default());
    assert!(text.has_preset());
    assert_eq!(None, text.default());
    assert_eq!(Some(Val::StaticStr("user-id".to_string())), text.preset("UserId", 1));
    assert_eq!(Some(Val::StaticStr("user-id".to_string())), text.default_or_preset("UserId", 1));

    let mut both = StaticStrDefinition::new();
    both.preset = Some(StringPreset::Kebab);
    both.default = Some("fixed".to_string());
    let both = Def::StaticStr(both);
    assert_eq!(Err("Both a default and a preset have been set"), both.validate());
    assert_eq!(Some(Val::StaticStr("fixed".to_string())), both.default_or_preset("UserId", 1));

    let mut serial: NumberDefinition<i64> = NumberDefinition::new();
    serial.preset = Some(NumberPreset::Serial);
    assert_eq!(
        Err("Missing attribute for `Serial` number preset: start"),
        Def::Integer64(NumberDefinition { preset: Some(NumberPreset::Serial), ..NumberDefinition::new() })
            .validate()
    );
    serial.start = Some(44);
    serial.increment = Some(-2);
    let serial = Def::Integer64(serial);
    assert_eq!(Ok(()), serial.validate());
    assert_eq!(Some(Val::Integer64(38)), serial.preset("Delta", 3));

    let mut ordinal: NumberDefinition<usize> = NumberDefinition::new();
    ordinal.preset = Some(NumberPreset::Ordinal);
    assert_eq!(Some(Val::UnsignedSize(2)), Def::UnsignedSize(ordinal).preset("Charlie", 2));

    let mut float: NumberDefinition<Double> = NumberDefinition::new();
    float.preset = Some(NumberPreset::Serial);
    float.start = Some(Double(1.5));
    float.increment = Some(Double(0.25));
    let float = Def::Float64(float);
    assert_eq!(Some(Val::Float64(Double(2.0))), float.preset("Charlie", 2));
    let mut single: NumberDefinition<Single> = NumberDefinition::new();
    single.default = Some(Single(0.5));
    assert_eq!(Some(Val::Float32(Single(0.5))), Def::Float32(single).default());

    let mut choice = FieldlessEnumDefinition::new(id(&["a"], "E"));
    choice.default = Some(id(&["a", "E"], "First"));
    assert_eq!(Some(Val::EnumVariant(id(&["a", "E"], "First"))), Def::FieldlessEnum(choice).default());
}

#[test]
fn relations_need_values_by_their_nature() {
    let mut relation = RelationDefinition::new(id(&["a"], "T"));
    relation.dispatch = Some(Dispatch::BoxedTrait);
    assert!(Def::Relation(RelationDefinition::new(id(&["a"], "T"))).needs_value());
    relation.nature = Some(RelationNature::OneToOne);
    assert!(!Def::Relation(RelationDefinition { identifier: id(&["a"], "T"), ..relation }).needs_value());
    let relation = RelationDefinition {
        identifier: id(&["a"], "T"),
        dispatch: Some(Dispatch::BoxedTrait),
        nature: Some(RelationNature::ManyToOne),
    };
    let definition = Def::Relation(relation);
    assert!(!definition.needs_value());
    assert!(!definition.has_default());
    assert!(!definition.has_preset());
    assert_eq!(None, definition.default());
    assert_eq!(None, definition.preset("Alpha", 0));
    assert_eq!(Ok(()), definition.validate());
    let many = RelationDefinition {
        identifier: id(&["a"], "T"),
        dispatch: Some(Dispatch::BoxedTrait),
        nature: Some(RelationNature::OneToMany),
    };
    assert!(Def::Relation(many).needs_value());
}

#[test]
fn the_methods_of_a_trait() {
    let relation = RelationDefinition {
        identifier: id(&["a"], "Other"),
        dispatch: Some(Dispatch::BoxedTrait),
        nature: Some(RelationNature::OneToOne),
    };
    let methods: Vec<Method<Double, Single>> = vec![
        Method::new("name".to_string(), ReturnType::StaticStr, Def::StaticStr(StaticStrDefinition::new())),
        Method::new("other".to_string(), ReturnType::BoxedTrait, Def::Relation(relation)),
        Method::new("flag".to_string(), ReturnType::Bool, Def::Bool(BoolDefinition::new())),
    ];
    let enumtrait = EnumTrait::new(id(&["a"], "MyTrait"), methods);
    assert_eq!(&id(&["a"], "MyTrait"), enumtrait.identifier());
    assert_eq!(3, enumtrait.methods().len());
    assert_eq!("name", enumtrait.methods()[0].name());
    assert_eq!(ReturnType::StaticStr, enumtrait.methods()[0].return_type());
    assert_eq!(&Def::Bool(BoolDefinition::new()), enumtrait.methods()[2].attribute_definition());
    let relations = enumtrait.relation_methods();
    assert_eq!(1, relations.len());
    assert_eq!("other", relations[0].0.name());
    assert_eq!(&id(&["a"], "Other"), relations[0].1.identifier());
}

#[test]
fn the_variants_of_an_enum() {
    let mut alpha: VariantBuilder<Double, Single> = VariantBuilder::new();
    assert!(!alpha.has_value("name"));
    alpha
        .name("Alpha".to_string())
        .value("name".to_string(), AttributeValue::new(Val::StaticStr("alpha".to_string())))
        .value("column".to_string(), AttributeValue::new(Val::UnsignedSize(0)));
    assert!(alpha.has_value("name"));
    assert_eq!(Some(&AttributeValue::new(Val::UnsignedSize(0))), alpha.get_value("column"));
    assert_eq!(None, alpha.get_value("missing"));
    let alpha = alpha.build();
    assert_eq!("Alpha", alpha.name());
    assert_eq!(2, alpha.values().len());
    assert!(alpha.has_value("column"));
    assert!(!alpha.has_value("missing"));
    assert_eq!(&Val::StaticStr("alpha".to_string()), alpha.value("name").unwrap().value());

    let mut bravo: VariantBuilder<Double, Single> = VariantBuilder::new();
    bravo.name("Bravo".to_string());
    let bravo = bravo.build();
    assert_eq!(0, bravo.values().len());

    let mut builder: TraitEnumBuilder<Double, Single> = TraitEnumBuilder::new();
    assert!(!builder.has_relation_enum("other"));
    builder
        .identifier(id(&["a"], "MyEnum"))
        .variant(alpha)
        .variant(bravo)
        .relation_enum("other".to_string(), id(&["a"], "OtherEnum"));
    assert!(builder.has_relation_enum("other"));
    let traitenum = builder.build();
    assert_eq!(&id(&["a"], "MyEnum"), traitenum.identifier());
    assert_eq!(2, traitenum.variants().len());
    assert_eq!("Bravo", traitenum.variant("Bravo").unwrap().name());
    assert!(traitenum.variant("Charlie").is_none());
    assert_eq!(Some(&id(&["a"], "OtherEnum")), traitenum.relation_enum_identifier("other"));
    assert_eq!(None, traitenum.relation_enum_identifier("another"));
    assert_eq!(1, traitenum.relation_enums().len());
}

#[test]
fn errors_of_definitions() {
    let e = Errors::UnknownDefinitionSetting {
        definition: "Num".to_string(),
        setting: "colour".to_string(),
    };
    assert_eq!("Unknown Num definition setting: colour", e.to_text());
    assert_eq!("[traitenum] Unknown Num definition setting: colour", e.to_report());
}

fn sample_methods() -> Vec<Method<Double, Single>> {
    let mut name = StaticStrDefinition::new();
    name.default = Some("spunko".to_string());
    let mut topic = StaticStrDefinition::new();
    topic.preset = Some(StringPreset::Variant);
    let mut ordinal: NumberDefinition<usize> = NumberDefinition::new();
    ordinal.preset = Some(NumberPreset::Ordinal);
    let parent = RelationDefinition {
        identifier: id(&["a"], "ParentTrait"),
        dispatch: Some(Dispatch::BoxedTrait),
        nature: Some(RelationNature::ManyToOne),
    };
    vec![
        Method::new("name".to_string(), ReturnType::StaticStr, Def::StaticStr(name)),
        Method::new("topic".to_string(), ReturnType::StaticStr, Def::StaticStr(topic)),
        Method::new("ordinal".to_string(), ReturnType::UnsignedSize, Def::UnsignedSize(ordinal)),
        Method::new("parent".to_string(), ReturnType::BoxedTrait, Def::Relation(parent)),
    ]
}

#[test]
fn variants_are_filled_from_defaults_and_presets() {
    let methods = sample_methods();
    let mut one: VariantBuilder<Double, Single> = VariantBuilder::new();
    one.name("One".to_string())
        .value("name".to_string(), AttributeValue::new(Val::StaticStr("alpha".to_string())));
    assert_eq!(Ok(()), one.fill_defaults(&methods, 1));
    let one = one.build();
    assert_eq!(&Val::StaticStr("alpha".to_string()), one.value("name").unwrap().value());
    assert_eq!(&Val::StaticStr("One".to_string()), one.value("topic").unwrap().value());
    assert_eq!(&Val::UnsignedSize(1), one.value("ordinal").unwrap().value());
    assert!(!one.has_value("parent"));
    assert_eq!(3, one.values().len());

    let mut charlie: VariantBuilder<Double, Single> = VariantBuilder::new();
    charlie.name("Charlie".to_string());
    assert_eq!(Ok(()), charlie.fill_defaults(&methods, 2));
    let charlie = charlie.build();
    assert_eq!(&Val::StaticStr("spunko".to_string()), charlie.value("name").unwrap().value());
    assert_eq!(&Val::StaticStr("Charlie".to_string()), charlie.value("topic").unwrap().value());
    assert_eq!(&Val::UnsignedSize(2), charlie.value("ordinal").unwrap().value());
}

#[test]
fn a_variant_without_a_needed_value_is_reported() {
    let mut methods = sample_methods();
    methods.insert(
        2,
        Method::new(
            "column".to_string(),
            ReturnType::UnsignedSize,
            Def::UnsignedSize(NumberDefinition::new()),
        ),
    );
    let mut bravo: VariantBuilder<Double, Single> = VariantBuilder::new();
    bravo.name("Bravo".to_string());
    assert_eq!(
        Err("Missing value for attribute `column`: Bravo".to_string()),
        bravo.fill_defaults(&methods, 1)
    );
    // What came before the method that is stuck is filled.
    assert!(bravo.has_value("name"));
    assert!(bravo.has_value("topic"));
    assert!(!bravo.has_value("ordinal"));

    let mut given: VariantBuilder<Double, Single> = VariantBuilder::new();
    given
        .name("Bravo".to_string())
        .value("column".to_string(), AttributeValue::new(Val::UnsignedSize(2)));
    assert_eq!(Ok(()), given.fill_defaults(&methods, 1));
    assert_eq!(&Val::UnsignedSize(2), given.get_value("column").unwrap().value());
    assert_eq!(&Val::UnsignedSize(1), given.get_value("ordinal").unwrap().value());

    // A preset that makes no number of the position gives no value.
    let mut small: NumberDefinition<u8> = NumberDefinition::new();
    small.preset = Some(NumberPreset::Ordinal);
    let methods = vec![Method::new("byte".to_string(), ReturnType::Byte, Def::Byte(small))];
    let mut far: VariantBuilder<Double, Single> = VariantBuilder::new();
    far.name("Far".to_string());
    assert_eq!(Ok(()), far.fill_defaults(&methods, 255));
    let mut farther: VariantBuilder<Double, Single> = VariantBuilder::new();
    farther.name("Farther".to_string());
    assert_eq!(
        Err("Missing value for attribute `byte`: Farther".to_string()),
        farther.fill_defaults(&methods, 256)
    );
}

#[test]
fn one_to_many_relations_are_filed_with_the_enum() {
    let children = RelationDefinition {
        identifier: id(&["a"], "ChildTrait"),
        dispatch: Some(Dispatch::BoxedTrait),
        nature: Some(RelationNature::OneToMany),
    };
    let mut methods = sample_methods();
    methods.push(Method::new(
        "children".to_string(),
        ReturnType::BoxedTraitIterator,
        Def::Relation(children),
    ));
    let mut alpha: VariantBuilder<Double, Single> = VariantBuilder::new();
    alpha
        .name("Alpha".to_string())
        .value("children".to_string(), AttributeValue::new(Val::Relation(id(&[], "ChildEnum"))))
        .value("parent".to_string(), AttributeValue::new(Val::Relation(id(&[], "ParentEnum"))));
    let mut builder: TraitEnumBuilder<Double, Single> = TraitEnumBuilder::new();
    builder.identifier(id(&[], "MyEnum"));
    alpha.file_relations(&methods, &mut builder);
    assert!(builder.has_relation_enum("children"));
    assert!(!builder.has_relation_enum("parent"));
    let built = builder.build();
    assert_eq!(Some(&id(&[], "ChildEnum")), built.relation_enum_identifier("children"));
    assert_eq!(1, built.relation_enums().len());

    // Filing twice under one name keeps one entry.
    let mut twice: VariantBuilder<Double, Single> = VariantBuilder::new();
    twice
        .name("Twice".to_string())
        .value("column".to_string(), AttributeValue::new(Val::UnsignedSize(1)))
        .value("column".to_string(), AttributeValue::new(Val::UnsignedSize(2)));
    let twice = twice.build();
    assert_eq!(1, twice.values().len());
    assert_eq!(&Val::UnsignedSize(2), twice.value("column").unwrap().value());
}
