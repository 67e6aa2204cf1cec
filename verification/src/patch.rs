//! The checks a nature patch description must pass before anything is
//! generated from it: its kind and name, its patch, soil and groundcover
//! settings, and its two platform profiles, in that order.

use crate::budget::{check_profile, profile_fault, ProfileFacts, ProfileFault};
use crate::text::{blank, is_blank, str_eq};
use vstd::prelude::*;

verus! {

/// A soil setting, in the order the settings are checked.
#[derive(Debug, Clone, Copy, PartialEq, Eq, Structural)]
pub enum SoilSetting {
    MoundScale,
    MoundHeight,
    MoundCoverage,
    ReliefScale,
    ReliefStrength,
    WetnessCoverage,
    WetnessScale,
    CracksAmount,
    CracksPlateDensity,
    CracksChannelWidth,
    CracksDepth,
}

/// A groundcover layer setting, in the order the settings are checked.
#[derive(Debug, Clone, Copy, PartialEq, Eq, Structural)]
pub enum LayerSetting {
    Density,
    Coverage,
    PatchScale,
    PatchSoftness,
    Height,
    Width,
    ReliefScale,
    ReliefStrength,
}

/// The first thing wrong with a nature patch.
#[derive(Debug, Clone, Copy, PartialEq, Eq, Structural)]
pub enum PatchFault {
    /// The asset kind is not `nature_patch`.
    Kind,
    /// The asset name is blank.
    Name,
    /// The patch size is not positive and finite.
    Size,
    /// A soil setting is out of its range.
    Soil { setting: SoilSetting },
    /// A setting of the groundcover layer at `index` is out of its range.
    Layer { index: usize, setting: LayerSetting },
    /// The mobile profile is unusable.
    Mobile { fault: ProfileFault },
    /// The console profile is unusable.
    Console { fault: ProfileFault },
}

/// Whether each soil setting lies in its range: coverages in `0..=1`, the
/// others non-negative, all finite.
#[derive(Debug, Clone, Copy)]
pub struct SoilFacts {
    pub mound_scale: bool,
    pub mound_height: bool,
    pub mound_coverage: bool,
    pub relief_scale: bool,
    pub relief_strength: bool,
    pub wetness_coverage: bool,
    pub wetness_scale: bool,
    pub cracks_amount: bool,
    pub cracks_plate_density: bool,
    pub cracks_channel_width: bool,
    pub cracks_depth: bool,
}

/// Whether each setting of a groundcover layer lies in its range: the
/// coverage in `0..=1`, the patch scale positive, the others non-negative,
/// all finite.
#[derive(Debug, Clone, Copy)]
pub struct LayerFacts {
    pub density: bool,
    pub coverage: bool,
    pub patch_scale: bool,
    pub patch_softness: bool,
    pub height: bool,
    pub width: bool,
    pub relief_scale: bool,
    pub relief_strength: bool,
}

/// What checking a nature patch reads: its kind and name, whether its
/// single-precision settings lie in their ranges, and its profiles.
#[derive(Debug, Clone)]
pub struct PatchFacts {
    /// The asset kind.
    pub kind: String,
    /// The asset name.
    pub name: String,
    /// The patch size is positive and finite.
    pub size_positive: bool,
    /// The soil settings.
    pub soil: SoilFacts,
    /// The groundcover layers, in order.
    pub layers: Vec<LayerFacts>,
    /// The mobile profile.
    pub mobile: ProfileFacts,
    /// The console profile.
    pub console: ProfileFacts,
}

/// The first soil setting out of its range, if any.
pub open spec fn soil_fault(s: SoilFacts) -> Option<SoilSetting> {
    if !s.mound_scale {
        Some(SoilSetting::MoundScale)
    } else if !s.mound_height {
        Some(SoilSetting::MoundHeight)
    } else if !s.mound_coverage {
        Some(SoilSetting::MoundCoverage)
    } else if !s.relief_scale {
        Some(SoilSetting::ReliefScale)
    } else if !s.relief_strength {
        Some(SoilSetting::ReliefStrength)
    } else if !s.wetness_coverage {
        Some(SoilSetting::WetnessCoverage)
    } else if !s.wetness_scale {
        Some(SoilSetting::WetnessScale)
    } else if !s.cracks_amount {
        Some(SoilSetting::CracksAmount)
    } else if !s.cracks_plate_density {
        Some(SoilSetting::CracksPlateDensity)
    } else if !s.cracks_channel_width {
        Some(SoilSetting::CracksChannelWidth)
    } else if !s.cracks_depth {
        Some(SoilSetting::CracksDepth)
    } else {
        None
    }
}

/// The first setting of a groundcover layer out of its range, if any.
pub open spec fn layer_fault(l: LayerFacts) -> Option<LayerSetting> {
    if !l.density {
        Some(LayerSetting::Density)
    } else if !l.coverage {
        Some(LayerSetting::Coverage)
    } else if !l.patch_scale {
        Some(LayerSetting::PatchScale)
    } else if !l.patch_softness {
        Some(LayerSetting::PatchSoftness)
    } else if !l.height {
        Some(LayerSetting::Height)
    } else if !l.width {
        Some(LayerSetting::Width)
    } else if !l.relief_scale {
        Some(LayerSetting::ReliefScale)
    } else if !l.relief_strength {
        Some(LayerSetting::ReliefStrength)
    } else {
        None
    }
}

/// The first fault among the layers from index `i` on, with its index.
pub open spec fn layers_fault_from(layers: Seq<LayerFacts>, i: int) -> Option<(int, LayerSetting)>
    decreases layers.len() - i,
{
    if i < 0 || i >= layers.len() {
        None
    } else {
        match layer_fault(layers[i]) {
            Some(s) => Some((i, s)),
            None => layers_fault_from(layers, i + 1),
        }
    }
}

/// The first thing wrong with a nature patch, if anything.
pub open spec fn patch_fault(f: PatchFacts) -> Option<PatchFault> {
    if f.kind@ != "nature_patch"@ {
        Some(PatchFault::Kind)
    } else if is_blank(f.name@) {
        Some(PatchFault::Name)
    } else if !f.size_positive {
        Some(PatchFault::Size)
    } else {
        match soil_fault(f.soil) {
            Some(setting) => Some(PatchFault::Soil { setting }),
            None => match layers_fault_from(f.layers@, 0) {
                Some((i, setting)) => Some(PatchFault::Layer { index: i as usize, setting }),
                None => match profile_fault(f.mobile) {
                    Some(fault) => Some(PatchFault::Mobile { fault }),
                    None => match profile_fault(f.console) {
                        Some(fault) => Some(PatchFault::Console { fault }),
                        None => None,
                    },
                },
            },
        }
    }
}

/// The first soil setting out of its range, if any.
fn check_soil(s: &SoilFacts) -> (r: Option<SoilSetting>)
    ensures
        r == soil_fault(*s),
{
    if !s.mound_scale {
        Some(SoilSetting::MoundScale)
    } else if !s.mound_height {
        Some(SoilSetting::MoundHeight)
    } else if !s.mound_coverage {
        Some(SoilSetting::MoundCoverage)
    } else if !s.relief_scale {
        Some(SoilSetting::ReliefScale)
    } else if !s.relief_strength {
        Some(SoilSetting::ReliefStrength)
    } else if !s.wetness_coverage {
        Some(SoilSetting::WetnessCoverage)
    } else if !s.wetness_scale {
        Some(SoilSetting::WetnessScale)
    } else if !s.cracks_amount {
        Some(SoilSetting::CracksAmount)
    } else if !s.cracks_plate_density {
        Some(SoilSetting::CracksPlateDensity)
    } else if !s.cracks_channel_width {
        Some(SoilSetting::CracksChannelWidth)
    } else if !s.cracks_depth {
        Some(SoilSetting::CracksDepth)
    } else {
        None
    }
}

/// The first setting of a groundcover layer out of its range, if any.
fn check_layer(l: &LayerFacts) -> (r: Option<LayerSetting>)
    ensures
        r == layer_fault(*l),
{
    if !l.density {
        Some(LayerSetting::Density)
    } else if !l.coverage {
        Some(LayerSetting::Coverage)
    } else if !l.patch_scale {
        Some(LayerSetting::PatchScale)
    } else if !l.patch_softness {
        Some(LayerSetting::PatchSoftness)
    } else if !l.height {
        Some(LayerSetting::Height)
    } else if !l.width {
        Some(LayerSetting::Width)
    } else if !l.relief_scale {
        Some(LayerSetting::ReliefScale)
    } else if !l.relief_strength {
        Some(LayerSetting::ReliefStrength)
    } else {
        None
    }
}

/// Checks a nature patch, reporting its first fault: the kind must be
/// `nature_patch` and the name not blank, then the patch size, the soil
/// settings, each groundcover layer in order, and the mobile and console
/// profiles must pass.
pub fn check_nature_patch(f: &PatchFacts) -> (r: Result<(), PatchFault>)
    ensures
        r == match patch_fault(*f) {
            Some(e) => Err(e),
            None => Ok::<(), PatchFault>(()),
        },
{
    if !str_eq(f.kind.as_str(), "nature_patch") {
        return Err(PatchFault::Kind);
    }
    if blank(f.name.as_str()) {
        return Err(PatchFault::Name);
    }
    if !f.size_positive {
        return Err(PatchFault::Size);
    }
    match check_soil(&f.soil) {
        Some(setting) => {
            return Err(PatchFault::Soil { setting });
        },
        None => {},
    }
    let mut i: usize = 0;
    while i < f.layers.len()
        invariant
            i <= f.layers@.len(),
            f.kind@ == "nature_patch"@,
            !is_blank(f.name@),
            f.size_positive,
            soil_fault(f.soil) is None,
            layers_fault_from(f.layers@, 0) == layers_fault_from(f.layers@, i as int),
        decreases f.layers@.len() - i,
    {
        match check_layer(&f.layers[i]) {
            Some(setting) => {
                assert(layers_fault_from(f.layers@, i as int) == Some((i as int, setting)));
                return Err(PatchFault::Layer { index: i, setting });
            },
            None => {},
        }
        i = i + 1;
    }
    match check_profile(&f.mobile) {
        Err(fault) => {
            return Err(PatchFault::Mobile { fault });
        },
        Ok(()) => {},
    }
    match check_profile(&f.console) {
        Err(fault) => Err(PatchFault::Console { fault }),
        Ok(()) => Ok(()),
    }
}

} // verus!
