//! Athlete attempts at a segment
//!
//! The SegmentEffort record carries floating-point measurements, so the
//! caller owns it together with the network round trip; the URL of the
//! efforts endpoint is defined and verified here. The caller wraps the
//! parsed list in `Paginated` with the same URL.
use vstd::prelude::*;
use vstd::string::StringExecFns;

use crate::api::{secret_of, spec_decimal, u32_to_string, v3, v3_url, AccessToken};

verus! {

/// The URL for listing the efforts recorded for the segment with the given
/// identifier.
pub fn list_for_segment_url(token: &AccessToken, id: u32) -> (r: String)
    ensures
        r@ == v3_url(
            secret_of(Some(token)),
            "segments/"@ + spec_decimal(id as nat) + "/all_efforts"@,
        ),
{
    let path = String::from_str("segments/").concat(u32_to_string(id).as_str()).concat(
        "/all_efforts",
    );
    v3(Some(token), path)
}

} // verus!
