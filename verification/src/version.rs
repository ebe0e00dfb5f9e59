//! The version string, user agent and commit link, from the package version and the git
//! information recorded at build time.

use vstd::prelude::*;
use vstd::string::StringExecFns;

verus! {

/// The version string: the package version, then `+g` and the short commit hash when it is
/// known, then `-dirty` when the working tree had changes.
pub open spec fn version_string(pkg_version: Seq<char>, hash_short: Option<Seq<char>>, dirty: Option<bool>) -> Seq<char> {
    match hash_short {
        Some(hash) => if dirty == Some(true) {
            pkg_version + "+g"@ + hash + "-dirty"@
        } else {
            pkg_version + "+g"@ + hash
        },
        None => pkg_version,
    }
}

/// The version string, from the package version, the short commit hash and whether the working
/// tree was dirty, as recorded at build time.
pub fn create_version_string(pkg_version: &str, hash_short: Option<&str>, dirty: Option<bool>) -> (s: String)
    ensures
        s@ == version_string(pkg_version@, match hash_short { Some(h) => Some(h@), None => None }, dirty),
{
    let mut s = String::from_str(pkg_version);
    match hash_short {
        Some(hash) => {
            s.append("+g");
            s.append(hash);
            match dirty {
                Some(true) => s.append("-dirty"),
                _ => {},
            }
        },
        None => {},
    }
    s
}

/// The user agent sent with requests: `DeArrowBrowser/` and the version string.
pub fn create_useragent_string(version: &str) -> (s: String)
    ensures
        s@ == "DeArrowBrowser/"@ + version@,
{
    let mut s = String::from_str("DeArrowBrowser/");
    s.append(version);
    s
}

/// The link to the commit the program was built from; the bare commit path when the hash is
/// not known.
pub fn create_commit_link(hash: Option<&str>) -> (s: String)
    ensures
        s@ == "https://github.com/mini-bomba/DeArrowBrowser/commit/"@ + match hash {
            Some(h) => h@,
            None => Seq::empty(),
        },
{
    let mut s = String::from_str("https://github.com/mini-bomba/DeArrowBrowser/commit/");
    match hash {
        Some(h) => s.append(h),
        None => {
            proof { assert(s@ + Seq::<char>::empty() =~= s@); }
        },
    }
    s
}

} // verus!
