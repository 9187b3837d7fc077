//! A three-valued setting: unset, false or true.

use vstd::prelude::*;

verus! {

/// A boolean setting that may be left unset, so that "not specified" is told
/// apart from "explicitly false".
#[derive(Debug, Clone, Copy, PartialEq, Eq, Structural, Hash)]
pub enum OptionBool {
    Unset,
    False,
    True,
}

impl OptionBool {
    /// The setting as an optional boolean.
    pub open spec fn to_option(self) -> Option<bool> {
        match self {
            OptionBool::Unset => None,
            OptionBool::False => Some(false),
            OptionBool::True => Some(true),
        }
    }

    /// The three-valued setting that stands for an optional boolean.
    pub open spec fn of_option(value: Option<bool>) -> OptionBool {
        match value {
            None => OptionBool::Unset,
            Some(false) => OptionBool::False,
            Some(true) => OptionBool::True,
        }
    }

    /// The byte that stands for the setting on the boundary: 0 for false, 1
    /// for true, 255 for unset.
    pub open spec fn byte(self) -> u8 {
        match self {
            OptionBool::Unset => 255,
            OptionBool::False => 0,
            OptionBool::True => 1,
        }
    }

    /// The byte that stands for the setting on the boundary.
    pub fn to_byte(self) -> (r: u8)
        ensures
            r == self.byte(),
    {
        match self {
            OptionBool::Unset => 255,
            OptionBool::False => 0,
            OptionBool::True => 1,
        }
    }

    /// The setting that `byte` stands for, or nothing where it stands for
    /// none.
    pub fn from_byte(byte: u8) -> (r: Option<OptionBool>)
        ensures
            r matches Some(setting) ==> setting.byte() == byte,
            r is None <==> byte != 0 && byte != 1 && byte != 255,
    {
        if byte == 0 {
            Some(OptionBool::False)
        } else if byte == 1 {
            Some(OptionBool::True)
        } else if byte == 255 {
            Some(OptionBool::Unset)
        } else {
            None
        }
    }

    /// Turns the setting into an optional boolean.
    pub fn as_opt(self) -> (r: Option<bool>)
        ensures
            r == self.to_option(),
    {
        Option::<bool>::from(self)
    }

    /// Going to an optional boolean and back gives the same setting, and the
    /// other way round; only the unset setting is no boolean.
    pub proof fn lemma_option_round_trip(setting: OptionBool, value: Option<bool>)
        ensures
            OptionBool::of_option(setting.to_option()) == setting,
            OptionBool::of_option(value).to_option() == value,
            (setting.to_option() is None) <==> setting == OptionBool::Unset,
    {
    }

    /// Two settings with the same byte are the same setting.
    pub proof fn lemma_byte_is_injective(a: OptionBool, b: OptionBool)
        requires
            a.byte() == b.byte(),
        ensures
            a == b,
    {
    }
}

impl From<OptionBool> for Option<bool> {
    fn from(value: OptionBool) -> (r: Self) {
        match value {
            OptionBool::Unset => None,
            OptionBool::False => Some(false),
            OptionBool::True => Some(true),
        }
    }
}

impl vstd::std_specs::convert::FromSpecImpl<OptionBool> for Option<bool> {
    open spec fn obeys_from_spec() -> bool {
        true
    }

    open spec fn from_spec(v: OptionBool) -> Self {
        v.to_option()
    }
}

impl From<Option<bool>> for OptionBool {
    fn from(value: Option<bool>) -> (r: Self) {
        match value {
            None => OptionBool::Unset,
            Some(false) => OptionBool::False,
            Some(true) => OptionBool::True,
        }
    }
}

impl vstd::std_specs::convert::FromSpecImpl<Option<bool>> for OptionBool {
    open spec fn obeys_from_spec() -> bool {
        true
    }

    open spec fn from_spec(v: Option<bool>) -> Self {
        OptionBool::of_option(v)
    }
}

impl Default for OptionBool {
    fn default() -> (r: Self)
        ensures
            r == OptionBool::Unset,
    {
        OptionBool::Unset
    }
}

} // verus!
