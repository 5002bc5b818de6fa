//! The response record returned for one materialize-and-upload request.

use vstd::prelude::*;

verus! {

/// What the porting endpoint reports on success: whose repository was
/// ported, the storage reference of the uploaded document, and the
/// document's size in bytes.
pub struct LlmTxtHandler {
    pub user: String,
    pub repo: String,
    pub load0_hash: String,
    pub size: u32,
}

impl LlmTxtHandler {
    /// Builds the record from its four fields.
    pub fn from(user: String, repo: String, load0_hash: String, size: u32) -> (r: Self)
        ensures
            r.user == user,
            r.repo == repo,
            r.load0_hash == load0_hash,
            r.size == size,
    {
        Self { user, repo, load0_hash, size }
    }
}

} // verus!
