//! The sidecar test as the parallel directory walk uses it.

use vstd::prelude::*;
use crate::paths::path_exists;
use crate::scanner::sidecar_path;

verus! {

/// Whether lyrics already lie beside the audio file. The answer is the file
/// system's, at the moment of the call.
pub fn has_lrc_sidecar(path: &str) -> bool {
    let sidecar = sidecar_path(path);
    path_exists(sidecar.as_str())
}

} // verus!
