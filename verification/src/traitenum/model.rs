//! The model of a trait that an enum answers: identifiers, the types that its
//! methods return, and how the value for each variant is defined.

use vstd::prelude::*;
use crate::testing::namepath::{joined_all, separator};
use crate::text::{copied, same, texts};

pub mod definition;
pub mod number;
pub mod schema;

pub use definition::{Definition, VariantValue};
pub use number::PresetNumber;
pub use schema::{
    AttributeValue, EnumTrait, Method, TraitEnum, TraitEnumBuilder, Variant, VariantBuilder,
};

verus! {

/// A name with the path that leads to it.
#[derive(Debug, PartialEq)]
pub struct Identifier {
    pub path: Vec<String>,
    pub name: String,
}

impl Clone for Identifier {
    fn clone(&self) -> (r: Self)
        ensures
            r.path@ == self.path@,
            r.name == self.name,
    {
        Identifier { path: copied(&self.path), name: self.name.clone() }
    }
}

impl Identifier {
    pub fn path(&self) -> (r: &[String])
        ensures
            r@ == self.path@,
    {
        self.path.as_slice()
    }

    pub fn name(&self) -> (r: &str)
        ensures
            r@ == self.name@,
    {
        self.name.as_str()
    }

    pub fn new(path: Vec<String>, name: String) -> (r: Self)
        ensures
            r.path == path,
            r.name == name,
    {
        Identifier { path, name }
    }

    /// The identifier one level up: the last part of the path becomes the
    /// name. `None` where the path is empty.
    pub fn base(&self) -> (r: Option<Identifier>)
        ensures
            r is Some == (self.path@.len() > 0),
            r is Some ==> r->0.path@ == self.path@.drop_last() && r->0.name == self.path@.last(),
    {
        let mut path = copied(&self.path);
        match path.pop() {
            Some(name) => Some(Self::new(path, name)),
            None => None,
        }
    }

    /// This identifier with another below it: `a::b` and `c::d` give `a::b::c::d`.
    pub fn append(&self, rh: Identifier) -> (r: Identifier)
        ensures
            r.path@ == self.path@.push(self.name) + rh.path@,
            r.name@ == rh.name@,
    {
        let mut path = copied(&self.path);
        path.push(self.name.clone());
        let mut tail = copied(&rh.path);
        path.append(&mut tail);
        Self::new(path, rh.name.clone())
    }

    /// The identifier as it is written: path and name with `::` between.
    pub open spec fn spec_text(&self) -> Seq<char> {
        joined_all(texts(self.path@).push(self.name@))
    }

    pub fn to_text(&self) -> (r: String)
        ensures
            r@ == self.spec_text(),
    {
        let mut r = String::new();
        let mut i: usize = 0;
        proof {
            reveal_strlit("::");
        }
        assert("::"@ =~= separator());
        let ghost all = texts(self.path@).push(self.name@);
        assert(all.take(0) =~= Seq::<Seq<char>>::empty());
        while i < self.path.len()
            invariant
                0 <= i <= self.path.len(),
                "::"@ == separator(),
                all == texts(self.path@).push(self.name@),
                r@ == joined_all(all.take(i as int)),
            decreases self.path.len() - i,
        {
            let ghost next = all.take(i + 1);
            assert(next.drop_last() =~= all.take(i as int));
            assert(next.last() == self.path@[i as int]@);
            if i > 0 {
                r.append("::");
            } else {
                assert(r@ + self.path@[i as int]@ =~= self.path@[i as int]@);
                assert(next[0] == self.path@[0]@);
            }
            r.append(self.path[i].as_str());
            i += 1;
        }
        let ghost next = all.take(i + 1);
        assert(next =~= all);
        assert(next.drop_last() =~= all.take(i as int));
        assert(next.last() == self.name@);
        if i > 0 {
            r.append("::");
        } else {
            assert(r@ + self.name@ =~= self.name@);
            assert(next[0] == self.name@);
        }
        r.append(self.name.as_str());
        r
    }
}

/// The types that a method of such a trait can return.
#[derive(Copy, Clone, Debug, PartialEq, Eq, Structural)]
pub enum ReturnType {
    Bool,
    StaticStr,
    UnsignedSize,
    UnsignedInteger64,
    Integer64,
    Float64,
    UnsignedInteger32,
    Integer32,
    Float32,
    Byte,
    BoxedTrait,
    BoxedTraitIterator,
    AssociatedType,
    Enum,
    Type,
}

impl ReturnType {
    /// The type as it is written in a signature.
    pub open spec fn spec_text(self) -> Seq<char> {
        match self {
            ReturnType::Bool => "bool"@,
            ReturnType::StaticStr => "&'static str"@,
            ReturnType::UnsignedSize => "usize"@,
            ReturnType::UnsignedInteger64 => "u64"@,
            ReturnType::Integer64 => "i64"@,
            ReturnType::Float64 => "f64"@,
            ReturnType::UnsignedInteger32 => "u32"@,
            ReturnType::Integer32 => "i32"@,
            ReturnType::Float32 => "f32"@,
            ReturnType::Byte => "u8"@,
            ReturnType::BoxedTrait => "Box<dyn Trait>"@,
            ReturnType::BoxedTraitIterator => "Box<dyn Iterator<Item = Box<dyn Trait>>>"@,
            ReturnType::AssociatedType => "<Self::Type>"@,
            ReturnType::Enum => "<Enum>"@,
            ReturnType::Type => "<Type>"@,
        }
    }

    pub fn to_text(&self) -> (r: &'static str)
        ensures
            r@ == self.spec_text(),
    {
        match self {
            ReturnType::Bool => "bool",
            ReturnType::StaticStr => "&'static str",
            ReturnType::UnsignedSize => "usize",
            ReturnType::UnsignedInteger64 => "u64",
            ReturnType::Integer64 => "i64",
            ReturnType::Float64 => "f64",
            ReturnType::UnsignedInteger32 => "u32",
            ReturnType::Integer32 => "i32",
            ReturnType::Float32 => "f32",
            ReturnType::Byte => "u8",
            ReturnType::BoxedTrait => "Box<dyn Trait>",
            ReturnType::BoxedTraitIterator => "Box<dyn Iterator<Item = Box<dyn Trait>>>",
            ReturnType::AssociatedType => "<Self::Type>",
            ReturnType::Enum => "<Enum>",
            ReturnType::Type => "<Type>",
        }
    }

    /// True of the ten primitive types, which are the ones that can be read
    /// from their text.
    pub open spec fn primitive(self) -> bool {
        match self {
            ReturnType::BoxedTrait
            | ReturnType::BoxedTraitIterator
            | ReturnType::AssociatedType
            | ReturnType::Enum
            | ReturnType::Type => false,
            _ => true,
        }
    }

    /// The primitive type that is written as `s`, if there is one.
    pub open spec fn spec_parse(s: Seq<char>) -> Option<ReturnType> {
        if s == "bool"@ {
            Some(ReturnType::Bool)
        } else if s == "&'static str"@ {
            Some(ReturnType::StaticStr)
        } else if s == "usize"@ {
            Some(ReturnType::UnsignedSize)
        } else if s == "u64"@ {
            Some(ReturnType::UnsignedInteger64)
        } else if s == "i64"@ {
            Some(ReturnType::Integer64)
        } else if s == "f64"@ {
            Some(ReturnType::Float64)
        } else if s == "u32"@ {
            Some(ReturnType::UnsignedInteger32)
        } else if s == "i32"@ {
            Some(ReturnType::Integer32)
        } else if s == "f32"@ {
            Some(ReturnType::Float32)
        } else if s == "u8"@ {
            Some(ReturnType::Byte)
        } else {
            None
        }
    }

    /// Reads a primitive type from its text.
    pub fn parse(s: &str) -> (r: Option<ReturnType>)
        ensures
            r == Self::spec_parse(s@),
    {
        if same(s, "bool") {
            Some(ReturnType::Bool)
        } else if same(s, "&'static str") {
            Some(ReturnType::StaticStr)
        } else if same(s, "usize") {
            Some(ReturnType::UnsignedSize)
        } else if same(s, "u64") {
            Some(ReturnType::UnsignedInteger64)
        } else if same(s, "i64") {
            Some(ReturnType::Integer64)
        } else if same(s, "f64") {
            Some(ReturnType::Float64)
        } else if same(s, "u32") {
            Some(ReturnType::UnsignedInteger32)
        } else if same(s, "i32") {
            Some(ReturnType::Integer32)
        } else if same(s, "f32") {
            Some(ReturnType::Float32)
        } else if same(s, "u8") {
            Some(ReturnType::Byte)
        } else {
            None
        }
    }
}

/// How the value of a `bool` method is defined.
#[derive(Debug, PartialEq, Eq, Clone, Copy)]
pub struct BoolDefinition {
    pub default: Option<bool>,
}

impl BoolDefinition {
    pub fn new() -> (r: Self)
        ensures
            r.default is None,
    {
        BoolDefinition { default: None }
    }

    /// Every definition of a `bool` method is sound.
    pub fn validate(&self) -> (r: Result<(), &'static str>)
        ensures
            r is Ok,
    {
        Ok(())
    }
}

/// How a number is taken from the position of a variant.
#[derive(Debug, PartialEq, Eq, Clone, Copy, Structural)]
pub enum NumberPreset {
    /// The position itself.
    Ordinal,
    /// A start value plus the position times an increment.
    Serial,
}

impl NumberPreset {
    pub open spec fn spec_parse(s: Seq<char>) -> Option<NumberPreset> {
        if s == "Ordinal"@ {
            Some(NumberPreset::Ordinal)
        } else if s == "Serial"@ {
            Some(NumberPreset::Serial)
        } else {
            None
        }
    }

    pub fn parse(s: &str) -> (r: Option<NumberPreset>)
        ensures
            r == Self::spec_parse(s@),
    {
        if same(s, "Ordinal") {
            Some(NumberPreset::Ordinal)
        } else if same(s, "Serial") {
            Some(NumberPreset::Serial)
        } else {
            None
        }
    }
}

/// How the value of a numeric method is defined.
#[derive(Debug, PartialEq)]
pub struct NumberDefinition<N> {
    pub default: Option<N>,
    pub preset: Option<NumberPreset>,
    pub start: Option<N>,
    pub increment: Option<N>,
}

impl<N> NumberDefinition<N> {
    pub fn new() -> (r: Self)
        ensures
            r.default is None,
            r.preset is None,
            r.start is None,
            r.increment is None,
    {
        NumberDefinition { default: None, preset: None, start: None, increment: None }
    }

    /// What `validate` answers: a `Serial` preset needs a start and an
    /// increment, and the start is looked for first.
    pub open spec fn spec_validate(&self) -> Result<(), &'static str> {
        if self.preset == Some(NumberPreset::Serial) {
            if self.start is None {
                Err("Missing attribute for `Serial` number preset: start")
            } else if self.increment is None {
                Err("Missing attribute for `Serial` number preset: increment")
            } else {
                Ok(())
            }
        } else {
            Ok(())
        }
    }

    pub fn validate(&self) -> (r: Result<(), &'static str>)
        ensures
            r == self.spec_validate(),
    {
        match self.preset {
            Some(NumberPreset::Serial) => {
                if self.start.is_none() {
                    Err("Missing attribute for `Serial` number preset: start")
                } else if self.increment.is_none() {
                    Err("Missing attribute for `Serial` number preset: increment")
                } else {
                    Ok(())
                }
            },
            _ => Ok(()),
        }
    }
}

/// How a text is taken from the name of a variant: by a change of case.
#[derive(Debug, PartialEq, Eq, Clone, Copy, Structural)]
pub enum StringPreset {
    /// The name as it is.
    Variant,
    /// "my_variant_name"
    Snake,
    /// "MY_VARIANT_NAME"
    UpperSnake,
    /// "my-variant-name"
    Kebab,
    /// "MY-VARIANT-NAME"
    UpperKebab,
    /// "myVariantName"
    Camel,
    /// "My Variant Name"
    Title,
    /// "MY VARIANT NAME"
    Upper,
    /// "my variant name"
    Lower,
    /// "myvariantname"
    Flat,
    /// "MYVARIANTNAME"
    UpperFlat,
    /// "My-Variable-Name"
    Train,
}

/// What the `convert_case` crate makes of a text in the case that belongs to
/// a preset other than `Variant`.
pub uninterp spec fn cased(preset: StringPreset, text: Seq<char>) -> Seq<char>;

/// Changes the case of `text` with `Casing::to_case` of the `convert_case`
/// crate, in the case of the same name as the preset (`ScreamingSnake` for
/// `UpperSnake`). Trusted: the result is a function of preset and text alone,
/// named `cased`. The preset `Variant` has no case and is left to the caller.
#[verifier::external_body]
fn to_case(preset: StringPreset, text: &str) -> (r: String)
    requires
        !(preset is Variant),
    ensures
        r@ == cased(preset, text@),
{
    convert_case::Casing::to_case(&text, match preset {
        StringPreset::Variant | StringPreset::Snake => convert_case::Case::Snake,
        StringPreset::UpperSnake => convert_case::Case::ScreamingSnake,
        StringPreset::Kebab => convert_case::Case::Kebab,
        StringPreset::UpperKebab => convert_case::Case::UpperKebab,
        StringPreset::Camel => convert_case::Case::Camel,
        StringPreset::Title => convert_case::Case::Title,
        StringPreset::Upper => convert_case::Case::Upper,
        StringPreset::Lower => convert_case::Case::Lower,
        StringPreset::Flat => convert_case::Case::Flat,
        StringPreset::UpperFlat => convert_case::Case::UpperFlat,
        StringPreset::Train => convert_case::Case::Train,
    })
}

impl StringPreset {
    pub open spec fn spec_parse(s: Seq<char>) -> Option<StringPreset> {
        if s == "Variant"@ {
            Some(StringPreset::Variant)
        } else if s == "Snake"@ {
            Some(StringPreset::Snake)
        } else if s == "UpperSnake"@ {
            Some(StringPreset::UpperSnake)
        } else if s == "Kebab"@ {
            Some(StringPreset::Kebab)
        } else if s == "UpperKebab"@ {
            Some(StringPreset::UpperKebab)
        } else if s == "Camel"@ {
            Some(StringPreset::Camel)
        } else if s == "Title"@ {
            Some(StringPreset::Title)
        } else if s == "Upper"@ {
            Some(StringPreset::Upper)
        } else if s == "Lower"@ {
            Some(StringPreset::Lower)
        } else if s == "Flat"@ {
            Some(StringPreset::Flat)
        } else if s == "UpperFlat"@ {
            Some(StringPreset::UpperFlat)
        } else if s == "Train"@ {
            Some(StringPreset::Train)
        } else {
            None
        }
    }

    pub fn parse(s: &str) -> (r: Option<StringPreset>)
        ensures
            r == Self::spec_parse(s@),
    {
        if same(s, "Variant") {
            Some(StringPreset::Variant)
        } else if same(s, "Snake") {
            Some(StringPreset::Snake)
        } else if same(s, "UpperSnake") {
            Some(StringPreset::UpperSnake)
        } else if same(s, "Kebab") {
            Some(StringPreset::Kebab)
        } else if same(s, "UpperKebab") {
            Some(StringPreset::UpperKebab)
        } else if same(s, "Camel") {
            Some(StringPreset::Camel)
        } else if same(s, "Title") {
            Some(StringPreset::Title)
        } else if same(s, "Upper") {
            Some(StringPreset::Upper)
        } else if same(s, "Lower") {
            Some(StringPreset::Lower)
        } else if same(s, "Flat") {
            Some(StringPreset::Flat)
        } else if same(s, "UpperFlat") {
            Some(StringPreset::UpperFlat)
        } else if same(s, "Train") {
            Some(StringPreset::Train)
        } else {
            None
        }
    }

    /// The text that the preset makes of a variant's name.
    pub open spec fn spec_convert(self, text: Seq<char>) -> Seq<char> {
        if self is Variant {
            text
        } else {
            cased(self, text)
        }
    }

    pub fn convert(&self, text: &str) -> (r: String)
        ensures
            r@ == self.spec_convert(text@),
    {
        match self {
            StringPreset::Variant => String::from_str(text),
            _ => to_case(*self, text),
        }
    }
}

/// How the value of a text method is defined.
#[derive(Debug, PartialEq, Eq)]
pub struct StaticStrDefinition {
    pub default: Option<String>,
    pub preset: Option<StringPreset>,
}

impl StaticStrDefinition {
    pub fn new() -> (r: Self)
        ensures
            r.default is None,
            r.preset is None,
    {
        StaticStrDefinition { default: None, preset: None }
    }
}

/// How the value of a method that returns a variant of another enum is defined.
#[derive(Debug, PartialEq)]
pub struct FieldlessEnumDefinition {
    pub identifier: Identifier,
    pub default: Option<Identifier>,
}

impl FieldlessEnumDefinition {
    pub fn new(identifier: Identifier) -> (r: Self)
        ensures
            r.identifier == identifier,
            r.default is None,
    {
        FieldlessEnumDefinition { identifier, default: None }
    }

    /// Every definition of such a method is sound.
    pub fn validate(&self) -> (r: Result<(), &'static str>)
        ensures
            r is Ok,
    {
        Ok(())
    }
}

/// The definition of a method that returns a type given by name.
#[derive(Debug, PartialEq)]
pub struct TypeDefinition {
    pub identifier: Identifier,
}

impl TypeDefinition {
    pub fn new(identifier: Identifier) -> (r: Self)
        ensures
            r.identifier == identifier,
    {
        TypeDefinition { identifier }
    }
}

/// How many of the other side a relation joins to one of this side.
#[derive(Copy, Clone, Debug, PartialEq, Eq, Structural)]
pub enum RelationNature {
    OneToOne,
    OneToMany,
    ManyToOne,
}

impl RelationNature {
    /// The nature that is written as `s`. One-to-one is written `OnetoOne`.
    pub open spec fn spec_parse(s: Seq<char>) -> Option<RelationNature> {
        if s == "OnetoOne"@ {
            Some(RelationNature::OneToOne)
        } else if s == "OneToMany"@ {
            Some(RelationNature::OneToMany)
        } else if s == "ManyToOne"@ {
            Some(RelationNature::ManyToOne)
        } else {
            None
        }
    }

    pub fn parse(s: &str) -> (r: Option<RelationNature>)
        ensures
            r == Self::spec_parse(s@),
    {
        if same(s, "OnetoOne") {
            Some(RelationNature::OneToOne)
        } else if same(s, "OneToMany") {
            Some(RelationNature::OneToMany)
        } else if same(s, "ManyToOne") {
            Some(RelationNature::ManyToOne)
        } else {
            None
        }
    }
}

/// How a related trait is reached.
#[derive(Copy, Clone, Debug, PartialEq, Eq, Structural)]
pub enum Dispatch {
    /// `Box<dyn Trait>` and `Box<dyn Iterator<Item = Box<dyn Trait>>>`.
    BoxedTrait,
    /// Kept for later; no definition with it is sound.
    Other,
}

impl Dispatch {
    pub open spec fn spec_parse(s: Seq<char>) -> Option<Dispatch> {
        if s == "BoxedTrait"@ {
            Some(Dispatch::BoxedTrait)
        } else if s == "Other"@ {
            Some(Dispatch::Other)
        } else {
            None
        }
    }

    pub fn parse(s: &str) -> (r: Option<Dispatch>)
        ensures
            r == Self::spec_parse(s@),
    {
        if same(s, "BoxedTrait") {
            Some(Dispatch::BoxedTrait)
        } else if same(s, "Other") {
            Some(Dispatch::Other)
        } else {
            None
        }
    }
}

/// How the value of a method that returns a related trait is defined.
#[derive(Debug, PartialEq)]
pub struct RelationDefinition {
    pub identifier: Identifier,
    pub dispatch: Option<Dispatch>,
    pub nature: Option<RelationNature>,
}

impl RelationDefinition {
    pub fn identifier(&self) -> (r: &Identifier)
        ensures
            *r == self.identifier,
    {
        &self.identifier
    }

    pub fn dispatch(&self) -> (r: Option<Dispatch>)
        ensures
            r == self.dispatch,
    {
        self.dispatch
    }

    pub fn nature(&self) -> (r: Option<RelationNature>)
        ensures
            r == self.nature,
    {
        self.nature
    }

    pub fn new(identifier: Identifier) -> (r: Self)
        ensures
            r.identifier == identifier,
            r.dispatch is None,
            r.nature is None,
    {
        RelationDefinition { identifier, nature: None, dispatch: None }
    }

    /// What `validate` answers: the dispatch must be `BoxedTrait` and the
    /// nature must be set. A missing dispatch is reported in the words of a
    /// missing nature.
    pub open spec fn spec_validate(&self) -> Result<(), &'static str> {
        match self.dispatch {
            Some(Dispatch::Other) => Err("Dispatch::Other is permanently unimplemented"),
            None => Err("Missing property for Rel definition: nature"),
            Some(Dispatch::BoxedTrait) => if self.nature is None {
                Err("Missing property for Rel definition: nature")
            } else {
                Ok(())
            },
        }
    }

    pub fn validate(&self) -> (r: Result<(), &'static str>)
        ensures
            r == self.spec_validate(),
    {
        match self.dispatch {
            Some(Dispatch::BoxedTrait) => {},
            Some(Dispatch::Other) => {
                return Err("Dispatch::Other is permanently unimplemented");
            },
            None => {
                return Err("Missing property for Rel definition: nature");
            },
        }
        match self.nature {
            Some(_) => {},
            None => {
                return Err("Missing property for Rel definition: nature");
            },
        }
        Ok(())
    }
}

} // verus!
