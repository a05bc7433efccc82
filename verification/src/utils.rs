//! The application's data directory, under the platform's local
//! configuration directory.

use vstd::prelude::*;
use vstd::string::StringExecFns;

verus! {

/// Relies on dirs::config_local_dir: the platform's local configuration
/// directory, if the platform defines one. The result depends on the
/// environment, so nothing is promised of its value.
#[verifier::external_body]
fn config_local_dir_string() -> (r: Option<String>) {
    match dirs::config_local_dir() {
        Some(p) => Some(p.to_string_lossy().into_owned()),
        None => None,
    }
}

/// The application's data directory: the platform's local configuration
/// directory with the application's own segment appended. `None` when the
/// platform defines no such directory.
pub fn data_dir() -> (r: Option<String>)
    ensures
        r matches Some(d) ==> "/asset_server"@.is_suffix_of(d@),
{
    match config_local_dir_string() {
        None => None,
        Some(base) => {
            let d = base.concat("/asset_server");
            proof {
                let whole = d@;
                let suf = "/asset_server"@;
                assert(suf =~= whole.subrange(whole.len() - suf.len(), whole.len() as int));
            }
            Some(d)
        },
    }
}

} // verus!
