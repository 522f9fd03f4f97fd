//! Size limits of the request-response codec, which hands requests and
//! responses over as raw bytes. The reading itself (at most the limit, from
//! the stream) happens outside the library.

use vstd::prelude::*;

verus! {

/// Default maximum request size in bytes: 1 MiB.
pub const DEFAULT_REQUEST_SIZE_MAXIMUM: u64 = 1048576;

/// Default maximum response size in bytes: 10 MiB.
pub const DEFAULT_RESPONSE_SIZE_MAXIMUM: u64 = 10485760;

/// The most bytes read for a request and for a response.
#[derive(Debug, Clone, Copy, PartialEq, Eq)]
pub struct CodecLimits {
    /// Maximum request size in bytes.
    pub request_max: u64,
    /// Maximum response size in bytes.
    pub response_max: u64,
}

impl CodecLimits {
    /// The default limits: 1 MiB per request, 10 MiB per response.
    pub fn new() -> (l: Self)
        ensures
            l.request_max == DEFAULT_REQUEST_SIZE_MAXIMUM,
            l.response_max == DEFAULT_RESPONSE_SIZE_MAXIMUM,
    {
        CodecLimits {
            request_max: DEFAULT_REQUEST_SIZE_MAXIMUM,
            response_max: DEFAULT_RESPONSE_SIZE_MAXIMUM,
        }
    }

    /// Updates the maximum request size in bytes.
    pub fn set_request_max_bytes(&mut self, max: u64)
        ensures
            final(self).request_max == max,
            final(self).response_max == old(self).response_max,
    {
        self.request_max = max;
    }

    /// Updates the maximum response size in bytes.
    pub fn set_response_max_bytes(&mut self, max: u64)
        ensures
            final(self).response_max == max,
            final(self).request_max == old(self).request_max,
    {
        self.response_max = max;
    }
}

} // verus!
