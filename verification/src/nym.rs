//! Nym mixnet integration: anonymous delivery of validation reports.
use vstd::prelude::*;

use crate::types::ValidationReport;

verus! {

/// Client of the Nym mixnet. It is not connected to the mixnet yet: every
/// report is accepted for delivery.
pub struct NymClientWrapper;

impl NymClientWrapper {
    /// A new client.
    pub fn new() -> (client: Self)
        ensures
            client == NymClientWrapper,
    {
        NymClientWrapper
    }

    /// Sends a report to a recipient through the mixnet. This client has no
    /// mixnet connection and accepts every report.
    pub fn send_report(&self, report: &ValidationReport, recipient: &str) -> (r: Result<(), String>)
        ensures
            r is Ok,
    {
        Ok(())
    }
}

} // verus!
