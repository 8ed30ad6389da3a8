use vstd::prelude::*;

verus! {

/// What every message of this library starts with.
pub const ERROR_PREFIX: &'static str = "[traitenum] ";

/// What can be wrong with the definition of a method.
#[derive(Debug, PartialEq, Eq)]
pub enum Errors {
    UnknownDefinitionSetting { definition: String, setting: String },
}

impl Errors {
    pub open spec fn spec_text(self) -> Seq<char> {
        match self {
            Errors::UnknownDefinitionSetting { definition, setting } => "Unknown "@ + definition@
                + " definition setting: "@ + setting@,
        }
    }

    /// The message of the error.
    pub fn to_text(&self) -> (r: String)
        ensures
            r@ == self.spec_text(),
    {
        match self {
            Errors::UnknownDefinitionSetting { definition, setting } => {
                let r = String::from_str("Unknown ").concat(definition.as_str()).concat(
                    " definition setting: ",
                ).concat(setting.as_str());
                assert(r@ =~= self.spec_text());
                r
            },
        }
    }

    /// The message as it is reported to the user of a macro: with the prefix.
    pub fn to_report(&self) -> (r: String)
        ensures
            r@ == ERROR_PREFIX@ + self.spec_text(),
    {
        let text = self.to_text();
        String::from_str(ERROR_PREFIX).concat(text.as_str())
    }
}

} // verus!
