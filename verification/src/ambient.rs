//! The one ambient value the library reads itself: the user's home
//! directory. Everything else ambient (environment variables, filesystem
//! probes, subprocess outcomes) is handed in by the caller.

use vstd::prelude::*;

use crate::environment::{default_data_dir, spec_default_data_dir};
use crate::platform::PlatformProfile;
use crate::resolver::{candidate_paths, spec_candidates};

verus! {

/// Relies on dirs::home_dir: the user's home directory, from the operating
/// system's notion of the current user. The result depends on the ambient
/// environment, so nothing is promised of it.
#[verifier::external_body]
fn ambient_home_dir() -> (r: Option<String>)
{
    dirs::home_dir().map(|p| p.to_string_lossy().into_owned())
}

/// The candidate locations of the tool binary on this machine: the declared
/// list for the platform, built around whatever home directory the ambient
/// environment reports.
pub fn get_possible_fnm_paths(
    profile: PlatformProfile,
    local_appdata: &Option<String>,
    program_files: &Option<String>,
) -> (r: Vec<String>)
    ensures
        exists|h: Option<Seq<char>>|
            r.deep_view() == spec_candidates(
                profile,
                h,
                local_appdata.deep_view(),
                program_files.deep_view(),
            ),
{
    let home = ambient_home_dir();
    let r = candidate_paths(profile, &home, local_appdata, program_files);
    proof {
        let h = home.deep_view();
        assert(r.deep_view() == spec_candidates(
            profile,
            h,
            local_appdata.deep_view(),
            program_files.deep_view(),
        ));
    }
    r
}

/// The platform's default data directory for the tool on this machine,
/// built around whatever home directory the ambient environment reports.
pub fn get_default_fnm_dir(profile: PlatformProfile, local_appdata: &Option<String>) -> (r: Option<
    String,
>)
    ensures
        exists|h: Option<Seq<char>>|
            r.deep_view() == spec_default_data_dir(profile, h, local_appdata.deep_view()),
{
    let home = ambient_home_dir();
    let r = default_data_dir(profile, &home, local_appdata);
    proof {
        let h = home.deep_view();
        assert(r.deep_view() == spec_default_data_dir(profile, h, local_appdata.deep_view()));
    }
    r
}

} // verus!
