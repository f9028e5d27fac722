//! Derived configuration values: the compose definition filename, the
//! mode label shown to the user, the generated environment file and the
//! sparse-checkout specification.

use vstd::prelude::*;
use vstd::string::StringExecFns;

verus! {

use crate::Mode;

/// The compose definition filename selected by the mode.
pub open spec fn spec_compose_file(mode: Mode) -> Seq<char> {
    match mode {
        Mode::Development => "docker-compose.dev.yml"@,
        Mode::Production => "docker-compose.prod.yml"@,
    }
}

/// The compose definition filename selected by the installation mode.
pub fn compose_file_name(mode: Mode) -> (r: &'static str)
    ensures
        r@ == spec_compose_file(mode),
{
    match mode {
        Mode::Development => "docker-compose.dev.yml",
        Mode::Production => "docker-compose.prod.yml",
    }
}

/// The human-readable label of the installation mode.
pub fn mode_label(mode: Mode) -> (r: &'static str)
    ensures
        mode is Development ==> r@ == "development"@,
        mode is Production ==> r@ == "production"@,
{
    match mode {
        Mode::Development => "development",
        Mode::Production => "production",
    }
}

/// The single line written to the generated environment file:
/// the fixed variable key bound to the API URL, newline-terminated.
pub fn env_file_content(api_url: &str) -> (r: String)
    ensures
        r@ == "VITE_KUKEN_API="@ + api_url@ + "\n"@,
{
    let mut s = String::from_str("VITE_KUKEN_API=");
    s.append(api_url);
    s.append("\n");
    s
}

/// The sparse-checkout specification restricting the materialized
/// working tree to the given subdirectory: one glob pattern per line.
pub fn sparse_checkout_content(subdirectory: &str) -> (r: String)
    ensures
        r@ == subdirectory@ + "/*\n"@,
{
    let mut s = String::from_str(subdirectory);
    s.append("/*\n");
    s
}

} // verus!
