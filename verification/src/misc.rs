//! Actions that touch neither a request nor a project.

use crate::config::types::MiscScenario;
use vstd::prelude::*;
use vstd::string::StringExecFns;

verus! {

/// The version of the tool.
pub const VERSION: &'static str = "0.1.0";

/// Miscellaneous actions.
pub struct Misc;

impl Misc {
    /// The line that reports the version.
    pub fn version() -> (out: String)
        ensures
            out@ == "Gemon version: "@ + VERSION@,
    {
        let mut out = String::from_str("Gemon version: ");
        out.append(VERSION);
        out
    }

    /// The line to print for a miscellaneous action.
    pub fn execute(scenario: &MiscScenario) -> (out: String)
        ensures
            out@ == "Gemon version: "@ + VERSION@,
    {
        match scenario {
            MiscScenario::Version => Self::version(),
        }
    }
}

} // verus!
