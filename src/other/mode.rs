use vstd::prelude::*;

verus! {

/// Which consoles a cartridge supports, from its header byte 0x0143.
#[derive(Clone, Copy, Debug, PartialEq, Eq, Structural)]
pub enum CompatibilityMode {
    DmgOnly,
    CgbBackward,
    CgbOnly,
}

impl CompatibilityMode {
    /// The mode that a header's CGB flag byte selects.
    pub open spec fn spec_from_flag(flag: u8) -> CompatibilityMode {
        if flag == 0xC0 {
            CompatibilityMode::CgbOnly
        } else if flag == 0x80 {
            CompatibilityMode::CgbBackward
        } else {
            CompatibilityMode::DmgOnly
        }
    }

    /// Reads the CGB flag byte of a cartridge header.
    pub fn from_flag(flag: u8) -> (r: CompatibilityMode)
        ensures
            r == Self::spec_from_flag(flag),
    {
        if flag == 0xC0 {
            CompatibilityMode::CgbOnly
        } else if flag == 0x80 {
            CompatibilityMode::CgbBackward
        } else {
            CompatibilityMode::DmgOnly
        }
    }

    pub fn is_cgb_only(self) -> (r: bool)
        ensures
            r == (self == CompatibilityMode::CgbOnly),
    {
        matches!(self, CompatibilityMode::CgbOnly)
    }

    pub fn is_cgb(self) -> (r: bool)
        ensures
            r == (self != CompatibilityMode::DmgOnly),
    {
        matches!(self, CompatibilityMode::CgbOnly | CompatibilityMode::CgbBackward)
    }
}

} // verus!
