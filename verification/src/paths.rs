//! The tool's filesystem layout: one workspaces root under the user's
//! home directory, holding every divergence workspace, plus the record
//! database kept beside it.

use vstd::prelude::*;
use crate::run::prefixed;

verus! {

/// Relies on `dirs::home_dir` for the user's home directory; the result
/// depends on the environment, so nothing is promised of it.
#[verifier::external_body]
fn home_dir() -> (r: Option<String>) {
    dirs::home_dir().map(|p| p.to_string_lossy().into_owned())
}

/// The tool's own directory under the given home directory.
pub fn get_divergence_dir(home: &str) -> (r: String)
    ensures
        r@ == home@ + "/.divergence"@,
{
    prefixed(home, "/.divergence")
}

/// The workspaces root: every divergence workspace lives directly under
/// it, and teardown refuses any path outside it.
pub fn get_repos_dir(home: &str) -> (r: String)
    ensures
        r@ == home@ + "/.divergence/repos"@,
{
    let mut d = get_divergence_dir(home);
    d.append("/repos");
    proof {
        assert(home@ + "/.divergence"@ + "/repos"@ =~= home@ + "/.divergence/repos"@) by {
            reveal_strlit("/.divergence");
            reveal_strlit("/repos");
            reveal_strlit("/.divergence/repos");
        }
    }
    d
}

/// Where the record database lives.
pub fn get_database_path(home: &str) -> (r: String)
    ensures
        r@ == home@ + "/.divergence/divergence.db"@,
{
    let mut d = get_divergence_dir(home);
    d.append("/divergence.db");
    proof {
        assert(home@ + "/.divergence"@ + "/divergence.db"@ =~= home@
            + "/.divergence/divergence.db"@) by {
            reveal_strlit("/.divergence");
            reveal_strlit("/divergence.db");
            reveal_strlit("/.divergence/divergence.db");
        }
    }
    d
}

/// The workspaces root of the current user, when a home directory can be
/// resolved: always a path ending in the tool's fixed suffix.
pub fn resolve_repos_dir() -> (r: Option<String>)
    ensures
        r matches Some(d) ==> exists|h: Seq<char>| d@ == h + "/.divergence/repos"@,
{
    match home_dir() {
        Some(h) => {
            let d = get_repos_dir(h.as_str());
            proof {
                assert(d@ == h@ + "/.divergence/repos"@);
            }
            Some(d)
        },
        None => None,
    }
}

} // verus!
