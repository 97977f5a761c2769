//! Opt-in nightly feature switches of the configuration model.
//!
//! Every nightly feature starts disabled; a deployment opts in explicitly.

use vstd::prelude::*;

verus! {

/// The current version and build of the application, as the `about` command
/// reports it.
pub const HARTEX_BUILD: &'static str = "Version 1.21.0, 22H1 (Build 262)";

/// The opt-in nightly features that the application provides.
pub struct NightlyFeatures {
    /// Experimental support for the threads API.
    pub threads: bool,
    /// Experimental support for localization facilities.
    pub localization: bool,
}

/// The default state of every nightly feature: disabled.
pub fn default_feature_enabled() -> (r: bool)
    ensures
        r == false,
{
    false
}

impl Default for NightlyFeatures {
    /// A configuration with every nightly feature in its default state.
    fn default() -> (r: Self)
        ensures
            r.threads == false,
            r.localization == false,
    {
        NightlyFeatures { threads: default_feature_enabled(), localization: default_feature_enabled() }
    }
}

} // verus!
