//! Tool profiles.
//!
//! A profile says which tools are offered: `core` the essentials, `developer`
//! (the default) also the developer workflow, `full` everything. A profile
//! only filters; it grants no permission.

use crate::text::{ascii_lower, concat3, lower, same};
use vstd::prelude::*;
use vstd::string::*;

verus! {

/// Which tools are offered.
#[derive(Debug, Clone, Copy, PartialEq, Eq, PartialOrd, Ord, Structural)]
pub enum ToolProfile {
    /// Safe essentials that answer fast.
    Core,
    /// What a coding agent is best served with.
    Developer,
    /// Every safe tool.
    Full,
}

impl ToolProfile {
    /// The name of a profile.
    pub open spec fn name(self) -> Seq<char> {
        match self {
            ToolProfile::Core => "core"@,
            ToolProfile::Developer => "developer"@,
            ToolProfile::Full => "full"@,
        }
    }

    /// The name of a profile.
    pub fn as_str(self) -> (r: &'static str)
        ensures
            r@ == self.name(),
    {
        match self {
            ToolProfile::Core => "core",
            ToolProfile::Developer => "developer",
            ToolProfile::Full => "full",
        }
    }

    /// The name of a profile, as a text of its own.
    pub fn to_string(&self) -> (r: String)
        ensures
            r@ == self.name(),
    {
        self.as_str().to_string()
    }

    /// The profile that is used where none is configured.
    pub fn default_profile() -> (r: Self)
        ensures
            r == ToolProfile::Developer,
    {
        ToolProfile::Developer
    }

    /// The profile of a name, in any mix of cases, or the words of the refusal.
    pub fn parse(s: &str) -> (r: Result<ToolProfile, String>)
        ensures
            match r {
                Ok(p) => profile_of(s@) == Some(p),
                Err(e) => profile_of(s@) is None && e@ == unknown_profile(s@),
            },
    {
        let given = lower(s);
        if same(&given, "core") {
            Ok(ToolProfile::Core)
        } else if same(&given, "developer") {
            Ok(ToolProfile::Developer)
        } else if same(&given, "full") {
            Ok(ToolProfile::Full)
        } else {
            Err(
                concat3(
                    "unknown tool profile '",
                    &given,
                    "' (expected core, developer, or full)",
                ),
            )
        }
    }
}

/// The profile of a name, in any mix of cases.
pub open spec fn profile_of(s: Seq<char>) -> Option<ToolProfile> {
    if ascii_lower(s) == "core"@ {
        Some(ToolProfile::Core)
    } else if ascii_lower(s) == "developer"@ {
        Some(ToolProfile::Developer)
    } else if ascii_lower(s) == "full"@ {
        Some(ToolProfile::Full)
    } else {
        None
    }
}

/// What is said of a name that is no profile's.
pub open spec fn unknown_profile(s: Seq<char>) -> Seq<char> {
    "unknown tool profile '"@ + ascii_lower(s) + "' (expected core, developer, or full)"@
}

impl std::str::FromStr for ToolProfile {
    type Err = String;

    fn from_str(s: &str) -> Result<ToolProfile, String> {
        ToolProfile::parse(s)
    }
}

/// Every profile is found again by its name.
pub proof fn law_names_round_trip(p: ToolProfile)
    ensures
        profile_of(p.name()) == Some(p),
{
    reveal_strlit("core");
    reveal_strlit("developer");
    reveal_strlit("full");
    assert(ascii_lower("core"@) =~= "core"@);
    assert(ascii_lower("developer"@) =~= "developer"@);
    assert(ascii_lower("full"@) =~= "full"@);
    assert("core"@ != "full"@) by {
        assert("core"@[0] != "full"@[0]);
    }
    assert("core"@.len() != "developer"@.len());
    assert("full"@.len() != "developer"@.len());
}

/// Names that differ in case alone mean the same profile.
pub proof fn law_case_does_not_matter(a: Seq<char>, b: Seq<char>)
    requires
        ascii_lower(a) == ascii_lower(b),
    ensures
        profile_of(a) == profile_of(b),
{
}

/// A profile is read from its name in any mix of cases, and from nothing else; what is
/// refused is told in lower case.
pub proof fn law_profiles_have_names(s: &str, r: Result<ToolProfile, String>)
    requires
        call_ensures(ToolProfile::parse, (s,), r),
    ensures
        ascii_lower(s@) == "core"@ <==> r is Ok && r->Ok_0 == ToolProfile::Core,
        ascii_lower(s@) == "developer"@ <==> r is Ok && r->Ok_0 == ToolProfile::Developer,
        ascii_lower(s@) == "full"@ <==> r is Ok && r->Ok_0 == ToolProfile::Full,
        r matches Err(e) ==> e@ == "unknown tool profile '"@ + ascii_lower(s@)
            + "' (expected core, developer, or full)"@,
{
    reveal_strlit("core");
    assert("core"@.len() == 4);
    reveal_strlit("developer");
    assert("developer"@.len() == 9);
    reveal_strlit("full");
    assert("full"@.len() == 4);
    assert("core"@[0] != "full"@[0]);
}

} // verus!
