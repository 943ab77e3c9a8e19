//! Identity of the package.
use vstd::prelude::*;

verus! {

/// Version of the crate.
pub const VERSION: &'static str = "0.1.0";

/// Name of the project.
pub const PROJECT_NAME: &'static str = "islamic_shariah_validator";

/// Description of the project.
pub const PROJECT_DESCRIPTION: &'static str = "Validation of financial contracts against Islamic Shariah principles (AAOIFI-compliant): Riba, Gharar, Maysir, asset backing, profit sharing and Halal industry.";

/// URL of the repository.
pub const REPOSITORY: &'static str = "https://gitlab.com/ethikluxry/islamic_shariah_validator";

} // verus!
