//! Options of the host's filesystem commands.

use vstd::prelude::*;

verus! {

#[verifier::external_type_specification]
#[verifier::external_body]
pub struct ExPathBuf(std::path::PathBuf);

/// Options of the command that tells whether a path exists.
#[derive(Clone)]
pub struct ExistsOptions {
    pub base_dir: Option<std::path::PathBuf>,
}

} // verus!
