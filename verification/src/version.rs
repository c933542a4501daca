//! The version line that the operator logs when it starts.

use crate::k8s::opt_view;
use vstd::prelude::*;

verus! {

/// What the build recorded of the version control state.
#[derive(Debug)]
pub struct GitInfo {
    /// The branch that was built, if the build was on one.
    pub branch: Option<String>,
    /// The short id of the commit that was built.
    pub commit_short_id: String,
    /// Whether the working tree had uncommitted changes.
    pub dirty: bool,
}

/// `<name> v<version>`.
pub open spec fn short_line(name: Seq<char>, version: Seq<char>) -> Seq<char> {
    name + " v"@ + version
}

/// `<name> v<version> <branch> <commit>`, followed by `!!!` for a build of a
/// tree with uncommitted changes; none when the build recorded no version
/// control state or no branch.
pub open spec fn long_line(name: Seq<char>, version: Seq<char>, git: Option<GitInfo>) -> Option<Seq<char>> {
    match git {
        Some(g) => match g.branch {
            Some(b) => Some(
                short_line(name, version) + " "@ + b@ + " "@ + g.commit_short_id@ + if g.dirty {
                    "!!!"@
                } else {
                    Seq::empty()
                },
            ),
            None => None,
        },
        None => None,
    }
}

/// See [`short_line`].
pub fn get_version_info_short(name: &str, version: &str) -> (s: String)
    ensures
        s@ == short_line(name@, version@),
{
    let mut s = name.to_string();
    s.append(" v");
    s.append(version);
    proof {
        reveal_strlit(" v");
    }
    s
}

/// See [`long_line`].
pub fn get_version_info_long(name: &str, version: &str, git: &Option<GitInfo>) -> (s: Option<String>)
    ensures
        opt_view(s) == long_line(name@, version@, *git),
{
    match git {
        Some(g) => match &g.branch {
            Some(b) => {
                let mut s = get_version_info_short(name, version);
                s.append(" ");
                s.append(b.as_str());
                s.append(" ");
                s.append(g.commit_short_id.as_str());
                if g.dirty {
                    s.append("!!!");
                }
                proof {
                    reveal_strlit(" ");
                    reveal_strlit("!!!");
                }
                assert(s@ =~= long_line(name@, version@, *git)->0);
                Some(s)
            },
            None => None,
        },
        None => None,
    }
}

} // verus!
