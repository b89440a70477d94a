//! Queue-family resolution: maps the two required queue roles (graphics
//! submission and surface presentation) to concrete queue-family indices
//! on a device, taking the first matching family for each role.

use vstd::prelude::*;

use crate::SuitabilityError;

verus! {

/// What one queue family offers, as answered by the driver: whether its
/// capability flags include graphics submission, and whether the
/// surface-support query against the bound surface returned true for it.
#[derive(Clone, Copy, Debug, PartialEq, Eq, Structural)]
pub struct QueueFamilyInfo {
    pub supports_graphics: bool,
    pub supports_present: bool,
}

/// Resolved queue-family indices for the two required roles.
/// The two fields may alias the same family.
#[derive(Clone, Copy, Debug, PartialEq, Eq, Structural)]
pub struct QueueFamilyIndices {
    pub graphics: u32,
    pub present: u32,
}

pub open spec fn has_graphics_family(families: Seq<QueueFamilyInfo>) -> bool {
    exists|i: int| 0 <= i < families.len() && families[i].supports_graphics
}

pub open spec fn has_present_family(families: Seq<QueueFamilyInfo>) -> bool {
    exists|i: int| 0 <= i < families.len() && families[i].supports_present
}

/// `i` is the first family in enumeration order whose flags include
/// graphics submission.
pub open spec fn is_first_graphics_family(families: Seq<QueueFamilyInfo>, i: int) -> bool {
    &&& 0 <= i < families.len()
    &&& families[i].supports_graphics
    &&& forall|j: int| 0 <= j < i ==> !families[j].supports_graphics
}

/// `i` is the first family in enumeration order that can present to the
/// bound surface.
pub open spec fn is_first_present_family(families: Seq<QueueFamilyInfo>, i: int) -> bool {
    &&& 0 <= i < families.len()
    &&& families[i].supports_present
    &&& forall|j: int| 0 <= j < i ==> !families[j].supports_present
}

impl QueueFamilyIndices {
    /// Resolves both roles over one enumeration of the device's queue
    /// families. Each role independently takes the first family in
    /// enumeration order that supports it (first match, not best match);
    /// the resolution fails if either role has no match.
    pub fn get(families: &Vec<QueueFamilyInfo>) -> (r: Result<QueueFamilyIndices, SuitabilityError>)
        requires
            families@.len() <= u32::MAX,
        ensures
            r is Ok <==> has_graphics_family(families@) && has_present_family(families@),
            r matches Ok(ix) ==> is_first_graphics_family(families@, ix.graphics as int),
            r matches Ok(ix) ==> is_first_present_family(families@, ix.present as int),
            r matches Err(e) ==> e == SuitabilityError::MissingQueueFamilies,
    {
        let n = families.len();
        let mut graphics: Option<u32> = None;
        let mut present: Option<u32> = None;
        let mut i: usize = 0;
        while i < n
            invariant
                n == families@.len() <= u32::MAX,
                i <= n,
                graphics is None ==> forall|j: int| 0 <= j < i ==> !families@[j].supports_graphics,
                graphics matches Some(g) ==> is_first_graphics_family(families@, g as int),
                present is None ==> forall|j: int| 0 <= j < i ==> !families@[j].supports_present,
                present matches Some(p) ==> is_first_present_family(families@, p as int),
            decreases n - i,
        {
            if graphics.is_none() && families[i].supports_graphics {
                graphics = Some(i as u32);
            }
            if present.is_none() && families[i].supports_present {
                present = Some(i as u32);
            }
            i = i + 1;
        }
        match (graphics, present) {
            (Some(g), Some(p)) => Ok(QueueFamilyIndices { graphics: g, present: p }),
            _ => Err(SuitabilityError::MissingQueueFamilies),
        }
    }
}

} // verus!
