//! The report packer collaborator.
//!
//! Packing gathers the profiles that processing has produced into one report
//! for the caller. How a report is serialized is outside this core; the
//! coordinator relies only on when packing succeeds and on what it covers:
//! packing succeeds exactly when at least one profile is available, and then
//! covers every available profile.

use vstd::prelude::*;

use crate::error::SvcError;

verus! {

/// Packs the available profiles into a report and returns how many profiles
/// the report covers. Rejected exactly when no profile is available.
pub fn pack_report(profiles: &Vec<String>) -> (r: Result<u64, SvcError>)
    ensures
        profiles@.len() == 0 ==> r == Err::<u64, SvcError>(SvcError::NoProfiles),
        profiles@.len() > 0 ==> (r matches Ok(n) && n == profiles@.len()),
{
    if profiles.len() == 0 {
        Err(SvcError::NoProfiles)
    } else {
        Ok(profiles.len() as u64)
    }
}

} // verus!
