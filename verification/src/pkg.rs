//! Properties of packages that evaluation and resolution share.

use vstd::prelude::*;
use crate::text::str_eq;

verus! {

/// How settled the releases of a package are that may be selected.
#[derive(Debug, Clone, Copy, PartialEq, Eq, Structural)]
pub enum PackageStability {
    /// Only stable releases.
    Stable,
    /// The latest release, stable or not.
    Latest,
}

impl PackageStability {
    /// The stability tier that `s` names.
    pub open spec fn parse(s: Seq<char>) -> Option<PackageStability> {
        if s == "stable"@ {
            Some(PackageStability::Stable)
        } else if s == "latest"@ {
            Some(PackageStability::Latest)
        } else {
            None
        }
    }

    /// Parse a stability tier from its name.
    pub fn parse_from_str(string: &str) -> (r: Option<Self>)
        ensures
            r == Self::parse(string@),
    {
        if str_eq(string, "stable") {
            Some(Self::Stable)
        } else if str_eq(string, "latest") {
            Some(Self::Latest)
        } else {
            None
        }
    }
}

} // verus!
