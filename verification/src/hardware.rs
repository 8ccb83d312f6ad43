//! The DMG-family hardware models the emulator can stand in for.
use vstd::prelude::*;

verus! {

#[derive(Clone, Copy, Debug, PartialEq, Eq, Structural)]
pub enum HardwareModel {
    Dmg0,
    Dmg,
    Mgb,
    Sgb,
    Sgb2,
}

impl HardwareModel {
    /// The model used when none is chosen.
    pub fn default_model() -> (r: Self)
        ensures
            r == HardwareModel::Dmg,
    {
        HardwareModel::Dmg
    }

    /// No DMG-family model runs in CGB mode.
    pub fn supports_cgb_mode(self) -> (r: bool)
        ensures
            !r,
    {
        false
    }

    /// Super Game Boy models can run SGB features.
    pub fn supports_sgb_features(self) -> (r: bool)
        ensures
            r == (self == HardwareModel::Sgb || self == HardwareModel::Sgb2),
    {
        matches!(self, HardwareModel::Sgb | HardwareModel::Sgb2)
    }
}

impl Default for HardwareModel {
    fn default() -> (r: Self)
        ensures
            r == HardwareModel::Dmg,
    {
        HardwareModel::Dmg
    }
}

} // verus!
