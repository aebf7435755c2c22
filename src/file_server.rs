//! Settings of the companion file server.
use vstd::prelude::*;

verus! {

/// Settings of the file server.
#[derive(Clone, Debug)]
pub struct Config {
    /// The directory that uploads are written to and downloads served from.
    pub file_dir: String,
    /// The address the server listens on.
    pub listen_addr: String,
}

} // verus!
