//! Hyperledger Fabric integration: the asset of a contract is looked up on
//! the ledger before the Shariah validation.
use vstd::prelude::*;

use crate::error::ShariahError;
use crate::rules::{contract_report, DEFAULT_GHARAR_THRESHOLD};
use crate::types::{FinancialContract, IndustrySector, ValidationReport};
use crate::validator::ShariahValidator;

verus! {

/// Client of a Fabric network. It does not connect to a ledger yet: every
/// asset is reported present.
pub struct FabricClientWrapper;

impl FabricClientWrapper {
    /// A new client.
    pub fn new() -> (client: Self)
        ensures
            client == FabricClientWrapper,
    {
        FabricClientWrapper
    }

    /// Whether an asset exists on the ledger. This client has no ledger
    /// connection and answers `Ok(true)` for every asset.
    pub fn asset_exists(&self, asset_id: &str) -> (r: Result<bool, ShariahError>)
        ensures
            r == Ok::<bool, ShariahError>(true),
    {
        Ok(true)
    }
}

pub const MSG_FABRIC_ASSET_BEFORE: &'static str = "L'actif '";
pub const MSG_FABRIC_ASSET_AFTER: &'static str = "' n'existe pas sur le ledger Fabric.";

/// Validates a contract with a default validator after looking its asset up
/// on Fabric: an asset the ledger does not know is a `FabricError`, an error
/// of the client is passed on. With the current client every asset is
/// known, so the result is always the default validator's report.
pub fn validate_with_fabric(contract: &FinancialContract, client: &FabricClientWrapper) -> (r: Result<
    ValidationReport,
    ShariahError,
>)
    ensures
        r matches Ok(report) && report@ == contract_report(
            set![IndustrySector::Haram],
            DEFAULT_GHARAR_THRESHOLD as int,
            *contract,
        ),
{
    if let Some(asset_id) = &contract.asset_id {
        match client.asset_exists(asset_id.as_str()) {
            Err(e) => {
                return Err(e);
            },
            Ok(false) => {
                let mut message = String::from_str(MSG_FABRIC_ASSET_BEFORE);
                message.append(asset_id.as_str());
                message.append(MSG_FABRIC_ASSET_AFTER);
                return Err(ShariahError::FabricError(message));
            },
            Ok(true) => {},
        }
    }
    let validator = ShariahValidator::new();
    Ok(validator.validate(contract))
}

} // verus!
