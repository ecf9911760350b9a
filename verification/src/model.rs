//! Machine model and CPU variant identifiers.

use vstd::prelude::*;

verus! {

/// Apple II machine model.
#[derive(Debug, Clone, Copy, PartialEq, Eq, Hash)]
pub enum Apple2Model {
    AppleII,
    AppleIIPlus,
    AppleIIe,
    AppleIIeEnh,
    AppleIIc,
    AppleIIcPlus,
    AppleIIgs,
    Clone,
}

impl Apple2Model {
    /// The model that a machine gets when none is chosen: the enhanced //e.
    pub open spec fn spec_default() -> Apple2Model {
        Apple2Model::AppleIIeEnh
    }

    /// Numeric model code, as stored in save-state files.
    pub fn code(&self) -> (r: u32)
        ensures
            r == model_code(*self),
    {
        match self {
            Apple2Model::AppleII => 0,
            Apple2Model::AppleIIPlus => 1,
            Apple2Model::AppleIIe => 2,
            Apple2Model::AppleIIeEnh => 3,
            Apple2Model::AppleIIc => 4,
            Apple2Model::AppleIIcPlus => 5,
            Apple2Model::AppleIIgs => 6,
            Apple2Model::Clone => 7,
        }
    }

    /// Returns `true` for Apple IIc and IIc+ models.
    pub fn is_iic(&self) -> (r: bool)
        ensures
            r <==> (*self == Apple2Model::AppleIIc || *self == Apple2Model::AppleIIcPlus),
    {
        match self {
            Apple2Model::AppleIIc | Apple2Model::AppleIIcPlus => true,
            _ => false,
        }
    }
}

/// The save-state code of each model.
pub open spec fn model_code(m: Apple2Model) -> u32 {
    match m {
        Apple2Model::AppleII => 0,
        Apple2Model::AppleIIPlus => 1,
        Apple2Model::AppleIIe => 2,
        Apple2Model::AppleIIeEnh => 3,
        Apple2Model::AppleIIc => 4,
        Apple2Model::AppleIIcPlus => 5,
        Apple2Model::AppleIIgs => 6,
        Apple2Model::Clone => 7,
    }
}

impl Default for Apple2Model {
    fn default() -> (r: Self)
        ensures
            r == Apple2Model::spec_default(),
    {
        Apple2Model::AppleIIeEnh
    }
}

/// CPU variant installed in the machine.
#[derive(Debug, Clone, Copy, PartialEq, Eq, Hash)]
pub enum CpuType {
    Cpu6502,
    Cpu65C02,
    CpuZ80,
    Cpu65C816,
}

impl CpuType {
    /// Numeric CPU code, as stored in save-state files.
    pub fn code(&self) -> (r: u32)
        ensures
            r == match *self {
                CpuType::Cpu6502 => 1u32,
                CpuType::Cpu65C02 => 2u32,
                CpuType::CpuZ80 => 3u32,
                CpuType::Cpu65C816 => 4u32,
            },
    {
        match self {
            CpuType::Cpu6502 => 1,
            CpuType::Cpu65C02 => 2,
            CpuType::CpuZ80 => 3,
            CpuType::Cpu65C816 => 4,
        }
    }
}

impl Default for CpuType {
    fn default() -> (r: Self)
        ensures
            r == CpuType::Cpu65C02,
    {
        CpuType::Cpu65C02
    }
}

} // verus!
