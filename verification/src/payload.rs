//! The unit of work handed to the task: which asset record to update and
//! where its metadata document lives.

use crate::sanitize::{sanitize_spec, sanitize_str};
use vstd::prelude::*;

verus! {

/// One download request. `asset_data_id` is the opaque key of the record to
/// update and never changes once built. `created_at` carries provenance as
/// microseconds since the Unix epoch; it is accepted when a payload is
/// decoded but never re-emitted when one is encoded onward.
#[derive(Debug, Clone, PartialEq)]
pub struct DownloadMetadata {
    pub asset_data_id: Vec<u8>,
    pub uri: String,
    pub created_at: Option<i64>,
}

impl DownloadMetadata {
    /// Cleans the URI in place: embedded nul characters are removed and
    /// whitespace is trimmed from both ends. Nothing else of the payload
    /// changes. Must run before URI validation and before any network use
    /// of the URI.
    pub fn sanitize(&mut self)
        ensures
            final(self).uri@ == sanitize_spec(old(self).uri@),
            final(self).asset_data_id@ == old(self).asset_data_id@,
            final(self).created_at == old(self).created_at,
    {
        let cleaned = sanitize_str(self.uri.as_str());
        self.uri = cleaned;
    }
}

} // verus!
