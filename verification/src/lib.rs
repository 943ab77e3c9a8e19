//! Validation of Islamic financial contracts against Shariah principles.

pub mod about;
pub mod clock;
pub mod error;
pub mod fabric;
pub mod indy;
pub mod laws;
pub mod mudarabah;
pub mod nym;
pub mod rules;
pub mod text;
pub mod types;
pub mod validator;

pub use mudarabah::validate_mudarabah;
pub use types::{
    FinancialContract, IndustrySector, IslamicContractType, ShariahViolation, ValidationReport,
    ViolationCode,
};
pub use error::ShariahError;
pub use validator::ShariahValidator;
pub use fabric::{validate_with_fabric, FabricClientWrapper};
pub use nym::NymClientWrapper;
pub use indy::{
    is_investor_eligibility_credential, IndyDID, IndyError, IndyLedgerConfig, IndyWalletConfig,
    MockIndyClient, VerifiableCredential,
};
pub use types::ONE;
pub use about::{PROJECT_DESCRIPTION, PROJECT_NAME, REPOSITORY, VERSION};
