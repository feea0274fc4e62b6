//! One entry of a remote's listing.

use vstd::prelude::*;

verus! {

/// A file or a directory that a remote lists under some path.
#[derive(Debug, Clone)]
pub struct RemoteEntry {
    pub path: String,
    pub name: String,
    pub size: i64,
    pub mime_type: Option<String>,
    pub mod_time: Option<String>,
    pub is_dir: bool,
}

} // verus!
