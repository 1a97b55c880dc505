//! Index versions: numbers in the resource, named versions in the driver.

use crate::driver::{Sphere2DIndexVersion, TextIndexVersion};
use vstd::prelude::*;

verus! {

/// Versions 2 and 3 are named; any other number is carried as it is.
pub open spec fn sphere_version(version: u32) -> Sphere2DIndexVersion {
    if version == 2 {
        Sphere2DIndexVersion::V2
    } else if version == 3 {
        Sphere2DIndexVersion::V3
    } else {
        Sphere2DIndexVersion::Custom(version)
    }
}

pub open spec fn sphere_number(version: Sphere2DIndexVersion) -> u32 {
    match version {
        Sphere2DIndexVersion::V2 => 2,
        Sphere2DIndexVersion::V3 => 3,
        Sphere2DIndexVersion::Custom(v) => v,
    }
}

/// Versions 1, 2 and 3 are named; any other number is carried as it is.
pub open spec fn text_version(version: u32) -> TextIndexVersion {
    if version == 1 {
        TextIndexVersion::V1
    } else if version == 2 {
        TextIndexVersion::V2
    } else if version == 3 {
        TextIndexVersion::V3
    } else {
        TextIndexVersion::Custom(version)
    }
}

pub open spec fn text_number(version: TextIndexVersion) -> u32 {
    match version {
        TextIndexVersion::V1 => 1,
        TextIndexVersion::V2 => 2,
        TextIndexVersion::V3 => 3,
        TextIndexVersion::Custom(v) => v,
    }
}

pub fn number_to_sphere_index_version(version: u32) -> (r: Sphere2DIndexVersion)
    ensures
        r == sphere_version(version),
{
    if version == 2 {
        Sphere2DIndexVersion::V2
    } else if version == 3 {
        Sphere2DIndexVersion::V3
    } else {
        Sphere2DIndexVersion::Custom(version)
    }
}

pub fn number_to_text_index_version(version: u32) -> (r: TextIndexVersion)
    ensures
        r == text_version(version),
{
    if version == 1 {
        TextIndexVersion::V1
    } else if version == 2 {
        TextIndexVersion::V2
    } else if version == 3 {
        TextIndexVersion::V3
    } else {
        TextIndexVersion::Custom(version)
    }
}

pub fn sphere_index_version_to_number(version: Sphere2DIndexVersion) -> (r: u32)
    ensures
        r == sphere_number(version),
{
    match version {
        Sphere2DIndexVersion::V2 => 2,
        Sphere2DIndexVersion::V3 => 3,
        Sphere2DIndexVersion::Custom(v) => v,
    }
}

pub fn text_index_version_to_number(version: TextIndexVersion) -> (r: u32)
    ensures
        r == text_number(version),
{
    match version {
        TextIndexVersion::V1 => 1,
        TextIndexVersion::V2 => 2,
        TextIndexVersion::V3 => 3,
        TextIndexVersion::Custom(v) => v,
    }
}

/// Every version number comes back from the driver's version as it went
/// in.
pub proof fn lemma_version_round_trip(version: u32)
    ensures
        sphere_number(sphere_version(version)) == version,
        text_number(text_version(version)) == version,
{
}

} // verus!
