//! Contracts, industry sectors, violation codes and validation reports.
use vstd::prelude::*;

verus! {

/// Fractional quantities (profit rates, profit shares, Gharar scores and the
/// Gharar threshold) are fixed-point numbers counted in millionths:
/// `ONE` stands for 1.0, that is 100%.
pub const ONE: i64 = 1_000_000;

/// Whether an industry sector is Halal, Haram or Doubtful.
#[derive(Debug, Clone, Copy, PartialEq, Eq, Hash, Structural)]
pub enum IndustrySector {
    Halal,
    Haram,
    Doubtful,
}

/// The Islamic contract types the validator knows.
#[derive(Debug, Clone, Copy, PartialEq, Eq, Structural)]
pub enum IslamicContractType {
    Mudarabah,
    Musharakah,
    Murabaha,
    Ijarah,
    Salam,
    Istisna,
}

/// Codes of the Shariah rules that a contract can violate.
#[derive(Debug, Clone, Copy, PartialEq, Eq, Structural)]
pub enum ViolationCode {
    RibaDetected,
    GhararExcessive,
    MaysirDetected,
    NoAssetBacking,
    HaramIndustry,
    InvalidProfitRatio,
    UnclearTerms,
    TransactionUncertainty,
}

/// A violation as contracts see it: its code, the field it concerns and its message.
pub type ViolationView = (ViolationCode, Seq<char>, Seq<char>);

/// One violated rule, with the field it concerns and an explanation.
#[derive(Debug, Clone)]
pub struct ShariahViolation {
    pub code: ViolationCode,
    pub field: String,
    pub message: String,
}

impl View for ShariahViolation {
    type V = ViolationView;

    open spec fn view(&self) -> ViolationView {
        (self.code, self.field@, self.message@)
    }
}

/// The views of a sequence of violations, in order.
pub open spec fn violation_views(vs: Seq<ShariahViolation>) -> Seq<ViolationView> {
    vs.map_values(|v: ShariahViolation| v@)
}

/// The texts of a sequence of strings, in order.
pub open spec fn string_views(ws: Seq<String>) -> Seq<Seq<char>> {
    ws.map_values(|w: String| w@)
}

/// The report of a validation: the verdict, the violations found (in the
/// order in which the rules ran) and non-blocking warnings.
#[derive(Debug, Clone)]
pub struct ValidationReport {
    pub is_valid: bool,
    pub violations: Vec<ShariahViolation>,
    pub warnings: Vec<String>,
}

impl View for ValidationReport {
    type V = (bool, Seq<ViolationView>, Seq<Seq<char>>);

    open spec fn view(&self) -> (bool, Seq<ViolationView>, Seq<Seq<char>>) {
        (self.is_valid, violation_views(self.violations@), string_views(self.warnings@))
    }
}

/// A financial contract submitted to the validator. Rates and shares are in
/// millionths (see [`ONE`]); timestamps are Unix seconds.
#[derive(Debug, Clone)]
pub struct FinancialContract {
    pub contract_type: IslamicContractType,
    pub industry: IndustrySector,
    pub principal_amount: u64,
    pub expected_profit_rate: Option<i64>,
    pub manager_profit_share: Option<i64>,
    pub investor_profit_share: Option<i64>,
    pub maturity_timestamp: u64,
    pub signing_timestamp: u64,
    pub asset_id: Option<String>,
    pub collateral_amount: u64,
    pub is_fixed_term: bool,
    pub ambiguous_clauses: Vec<String>,
}

/// Identifier of the asset that backs the default contract.
pub const DEFAULT_ASSET_ID: &'static str = "real_estate_001";

impl Default for FinancialContract {
    /// A compliant Mudarabah: Halal sector, no fixed rate, 30% / 70% profit
    /// shares, a real-estate asset and a fixed term.
    fn default() -> (c: Self)
        ensures
            c.contract_type == IslamicContractType::Mudarabah,
            c.industry == IndustrySector::Halal,
            c.principal_amount == 100_000,
            c.expected_profit_rate is None,
            c.manager_profit_share == Some(300_000i64),
            c.investor_profit_share == Some(700_000i64),
            c.maturity_timestamp == 1_700_000_000,
            c.signing_timestamp == 1_600_000_000,
            c.asset_id matches Some(a) && a@ == DEFAULT_ASSET_ID@,
            c.collateral_amount == 50_000,
            c.is_fixed_term,
            c.ambiguous_clauses@.len() == 0,
    {
        FinancialContract {
            contract_type: IslamicContractType::Mudarabah,
            industry: IndustrySector::Halal,
            principal_amount: 100_000,
            expected_profit_rate: None,
            manager_profit_share: Some(300_000),
            investor_profit_share: Some(700_000),
            maturity_timestamp: 1_700_000_000,
            signing_timestamp: 1_600_000_000,
            asset_id: Some(String::from_str(DEFAULT_ASSET_ID)),
            collateral_amount: 50_000,
            is_fixed_term: true,
            ambiguous_clauses: Vec::new(),
        }
    }
}

} // verus!
