use vstd::prelude::*;

pub mod blank;
pub mod nrtmodule;
pub mod test;
pub mod test2;
pub mod testinput;

verus! {

/// The kinds of module that a connector can be replaced with.
#[derive(Debug, Clone, Copy, PartialEq, Eq, Structural)]
pub enum NRTModuleType {
    Blank,
    Gain,
}

impl NRTModuleType {
    /// The name under which the module type is offered to the user.
    pub open spec fn name(&self) -> Seq<char> {
        match self {
            NRTModuleType::Blank => "Blank"@,
            NRTModuleType::Gain => "Gain"@,
        }
    }

    /// The type's name, as the module picker shows it: `Blank` or `Gain`.
    pub fn to_string(&self) -> (s: String)
        ensures
            s@ == self.name(),
    {
        match self {
            NRTModuleType::Blank => String::from_str("Blank"),
            NRTModuleType::Gain => String::from_str("Gain"),
        }
    }
}

} // verus!
