use vstd::prelude::*;

use crate::utils::str_eq;

verus! {

/// The logical domain of a rule: an on/off switch, independent of the raw
/// representation a subsystem stores for it.
#[derive(Debug, Clone, Copy, PartialEq, Eq, Hash, Structural)]
pub enum OnOffType {
    On,
    Off,
}

/// The logical value read back from a raw subsystem value: the text "0"
/// means Off, anything else means On.
pub open spec fn spec_from_raw(s: Seq<char>) -> OnOffType {
    if s == "0"@ {
        OnOffType::Off
    } else {
        OnOffType::On
    }
}

/// A desired value parsed into the on/off domain: only the two tokens
/// "on" and "off" are recognized.
pub open spec fn spec_parse_on_off(s: Seq<char>) -> Option<OnOffType> {
    if s == "on"@ {
        Some(OnOffType::On)
    } else if s == "off"@ {
        Some(OnOffType::Off)
    } else {
        None
    }
}

/// The opposite logical value.
pub open spec fn spec_flip(v: OnOffType) -> OnOffType {
    match v {
        OnOffType::On => OnOffType::Off,
        OnOffType::Off => OnOffType::On,
    }
}

/// The raw 32-bit representation written to a subsystem: 1 for On, 0 for Off.
pub open spec fn spec_as_u32(v: OnOffType) -> u32 {
    match v {
        OnOffType::On => 1u32,
        OnOffType::Off => 0u32,
    }
}

/// The textual form of a logical value: "on" or "off".
pub open spec fn spec_token(v: OnOffType) -> Seq<char> {
    match v {
        OnOffType::On => "on"@,
        OnOffType::Off => "off"@,
    }
}

impl OnOffType {
    /// Maps a raw subsystem value to the logical domain.
    pub fn from_string(value: &str) -> (r: OnOffType)
        ensures
            r == spec_from_raw(value@),
    {
        if str_eq(value, "0") {
            OnOffType::Off
        } else {
            OnOffType::On
        }
    }

    /// Parses a desired value; anything but "on" or "off" is rejected.
    pub fn from_str(value: &str) -> (r: Option<OnOffType>)
        ensures
            r == spec_parse_on_off(value@),
    {
        if str_eq(value, "on") {
            Some(OnOffType::On)
        } else if str_eq(value, "off") {
            Some(OnOffType::Off)
        } else {
            None
        }
    }

    /// The opposite logical value.
    pub fn flipped(&self) -> (r: OnOffType)
        ensures
            r == spec_flip(*self),
    {
        match self {
            OnOffType::On => OnOffType::Off,
            OnOffType::Off => OnOffType::On,
        }
    }

    /// The raw 32-bit representation of the value.
    pub fn as_u32(&self) -> (r: u32)
        ensures
            r == spec_as_u32(*self),
    {
        match self {
            OnOffType::On => 1,
            OnOffType::Off => 0,
        }
    }

    /// The textual form of the value, "on" or "off".
    pub fn as_str(&self) -> (r: &'static str)
        ensures
            r@ == spec_token(*self),
    {
        match self {
            OnOffType::On => "on",
            OnOffType::Off => "off",
        }
    }
}

} // verus!
