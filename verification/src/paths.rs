//! Resolution of the fixed installation directory: a dedicated
//! subdirectory under the invoking user's home directory.

use vstd::prelude::*;
use vstd::string::StringExecFns;

verus! {

/// The fixed path of the installation directory relative to the home
/// directory, as a suffix of the full path.
pub open spec fn install_dir_suffix() -> Seq<char> {
    "/.kuken/web"@
}

/// Holds of a path that ends in the fixed installation subdirectory.
pub open spec fn is_install_dir_path(p: Seq<char>) -> bool {
    &&& p.len() >= install_dir_suffix().len()
    &&& p.subrange(p.len() - install_dir_suffix().len(), p.len() as int) == install_dir_suffix()
}

/// The installation directory under the given home directory.
pub fn install_dir_path(home: &str) -> (r: String)
    ensures
        r@ == home@ + install_dir_suffix(),
        is_install_dir_path(r@),
{
    let mut s = String::from_str(home);
    s.append("/.kuken/web");
    proof {
        assert(s@.subrange(
            s@.len() - install_dir_suffix().len(),
            s@.len() as int,
        ) =~= install_dir_suffix());
    }
    s
}

/// Relies on dirs::home_dir: the home directory as the platform
/// defines it, or None when it cannot be determined. The result
/// depends on the environment, so nothing is promised of it; a path
/// that is not valid Unicode is treated as undetermined.
#[verifier::external_body]
fn query_home_dir() -> Option<String> {
    dirs::home_dir().and_then(|p| p.into_os_string().into_string().ok())
}

/// The resolved installation directory: the fixed subdirectory under
/// the user's home directory, or `None` when no home directory can be
/// determined.
pub fn resolve_install_dir() -> (r: Option<String>)
    ensures
        r matches Some(p) ==> is_install_dir_path(p@),
{
    match query_home_dir() {
        Some(home) => Some(install_dir_path(home.as_str())),
        None => None,
    }
}

} // verus!
