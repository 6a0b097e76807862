//! Whether the profile grid is shown.
use crate::error::Field;
use crate::types::util::primitive::Primitive;
use vstd::prelude::*;
use vstd::std_specs::convert::FromSpecImpl;
use vstd::string::StringExecFns;

verus! {

/// Whether the profile grid is shown.
#[derive(Debug, Clone, Copy, PartialEq, Eq, Structural, Hash)]
pub enum ProfileGrid {
    Off,
    On,
}

impl Primitive for ProfileGrid {
    open spec fn code(self) -> Option<u8> {
        Some(
            match self {
                ProfileGrid::Off => 0u8,
                ProfileGrid::On => 1u8,
            },
        )
    }

    open spec fn from_code(raw: u8) -> Option<ProfileGrid> {
        if raw == 0 {
            Some(ProfileGrid::Off)
        } else if raw == 1 {
            Some(ProfileGrid::On)
        } else {
            None
        }
    }

    open spec fn field() -> Field {
        Field::ProfileGrid
    }

    fn from_u8(raw: u8) -> (r: Option<ProfileGrid>) {
        match raw {
            0 => Some(ProfileGrid::Off),
            1 => Some(ProfileGrid::On),
            _ => None,
        }
    }

    fn to_u8(&self) -> (r: Option<u8>) {
        Some(
            match self {
                ProfileGrid::Off => 0,
                ProfileGrid::On => 1,
            },
        )
    }

    fn subject() -> (f: Field) {
        Field::ProfileGrid
    }

    proof fn code_is_read_back(self) {
    }

    proof fn read_is_coded_back(raw: u8) {
    }
}

impl ProfileGrid {
    /// The words that describe the value.
    pub open spec fn text(self) -> Seq<char> {
        match self {
            ProfileGrid::Off => "off"@,
            ProfileGrid::On => "on"@,
        }
    }

    /// The value in words.
    pub fn to_string(&self) -> (r: String)
        ensures
            r@ == self.text(),
    {
        match self {
            ProfileGrid::Off => String::from_str("off"),
            ProfileGrid::On => String::from_str("on"),
        }
    }
}

impl Default for ProfileGrid {
    fn default() -> (r: Self)
        ensures
            r == ProfileGrid::Off,
    {
        ProfileGrid::Off
    }
}

impl From<bool> for ProfileGrid {
    fn from(value: bool) -> (r: Self) {
        match value {
            false => ProfileGrid::Off,
            true => ProfileGrid::On,
        }
    }
}

impl FromSpecImpl<bool> for ProfileGrid {
    open spec fn obeys_from_spec() -> bool {
        true
    }

    open spec fn from_spec(value: bool) -> ProfileGrid {
        if value {
            ProfileGrid::On
        } else {
            ProfileGrid::Off
        }
    }
}

impl From<ProfileGrid> for bool {
    fn from(value: ProfileGrid) -> (r: bool) {
        match value {
            ProfileGrid::Off => false,
            ProfileGrid::On => true,
        }
    }
}

impl FromSpecImpl<ProfileGrid> for bool {
    open spec fn obeys_from_spec() -> bool {
        true
    }

    open spec fn from_spec(value: ProfileGrid) -> bool {
        value == ProfileGrid::On
    }
}

} // verus!
