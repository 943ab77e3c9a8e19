//! The Shariah validation engine.
use std::collections::HashSet;
use vstd::prelude::*;
use vstd::std_specs::hash::group_hash_axioms;

use crate::error::ShariahError;
use crate::rules::{
    asset_backing_violations, clarity_violations, clause_text, clause_violations,
    contract_report, contract_violations, gharar_text, gharar_violations, gharar_warnings,
    holds_vague_word, industry_violations, maysir_violations, profit_sharing_violations,
    riba_rate_text, riba_violations, shares_over_text, shares_sum_text, DEFAULT_GHARAR_THRESHOLD,
    FIELD_ASSET_ID, FIELD_CLAUSES, FIELD_COLLATERAL, FIELD_CONTRACT_TERMS, FIELD_INDUSTRY,
    FIELD_MATURITY, FIELD_PROFIT_RATE, FIELD_PROFIT_SHARES, FIELD_PROFIT_SHARING,
    FIELD_TIMESTAMPS, FIVE_YEARS_SECS, GHARAR_FAR_MATURITY, GHARAR_NO_ASSET, GHARAR_OPEN_TERM,
    GHARAR_PER_CLAUSE, MSG_DATES_MISSING, MSG_DATES_ORDER, MSG_DOUBTFUL, MSG_HARAM,
    MSG_MAYSIR_SALAM, MSG_MAYSIR_UNBACKED, MSG_NO_ASSET, MSG_NO_COLLATERAL, MSG_RIBA_UNBACKED,
    MSG_SHARES_MISSING, MSG_SHARES_NOT_POSITIVE, SHARE_TOLERANCE, WARN_FAR_MATURITY,
    WARN_NOT_FIXED_TERM,
};
use crate::text::to_lowercase;
use crate::types::{
    string_views, violation_views, FinancialContract, IndustrySector, IslamicContractType,
    ShariahViolation, ValidationReport, ViolationCode, ONE,
};

verus! {

/// The key under which a sector is kept in the Haram list.
pub open spec fn sector_key(s: IndustrySector) -> u8 {
    match s {
        IndustrySector::Halal => 0,
        IndustrySector::Haram => 1,
        IndustrySector::Doubtful => 2,
    }
}

fn sector_key_of(s: IndustrySector) -> (k: u8)
    ensures
        k == sector_key(s),
{
    match s {
        IndustrySector::Halal => 0,
        IndustrySector::Haram => 1,
        IndustrySector::Doubtful => 2,
    }
}

/// Message of a violation whose asset is unknown to the resolver.
pub const MSG_ASSET_UNKNOWN_BEFORE: &'static str = "L'actif '";
pub const MSG_ASSET_UNKNOWN_AFTER: &'static str = "' n'existe pas sur le ledger.";

pub open spec fn asset_unknown_message(asset_id: Seq<char>) -> Seq<char> {
    MSG_ASSET_UNKNOWN_BEFORE@ + asset_id + MSG_ASSET_UNKNOWN_AFTER@
}

/// Adds one violation at the end of `vs`.
fn push_violation(vs: &mut Vec<ShariahViolation>, code: ViolationCode, field: &str, message: String)
    ensures
        violation_views(final(vs)@) == violation_views(old(vs)@).push((code, field@, message@)),
{
    let v = ShariahViolation { code, field: String::from_str(field), message };
    vs.push(v);
    assert(violation_views(vs@) =~= violation_views(old(vs)@).push((code, field@, message@)));
}

/// Adds one warning at the end of `ws`.
fn push_warning(ws: &mut Vec<String>, text: &str)
    ensures
        string_views(final(ws)@) == string_views(old(ws)@).push(text@),
{
    ws.push(String::from_str(text));
    assert(string_views(ws@) =~= string_views(old(ws)@).push(text@));
}

/// Validator of financial contracts against Shariah rules: Riba, Gharar,
/// Maysir, asset backing, profit sharing and Halal industry.
#[derive(Debug)]
pub struct ShariahValidator {
    /// Keys of the sectors considered Haram.
    haram_industries: HashSet<u8>,
    /// Highest Gharar score allowed, in millionths (0 to `ONE`).
    max_uncertainty_threshold: u64,
}

impl ShariahValidator {
    #[verifier::type_invariant]
    closed spec fn well_formed(self) -> bool {
        self.max_uncertainty_threshold <= ONE
    }

    /// The sectors this validator refuses as Haram.
    pub closed spec fn haram_sectors(self) -> Set<IndustrySector> {
        Set::new(|s: IndustrySector| self.haram_industries@.contains(sector_key(s)))
    }

    /// The highest Gharar score this validator accepts, in millionths.
    pub closed spec fn gharar_threshold(self) -> int {
        self.max_uncertainty_threshold as int
    }

    fn with_threshold(threshold: u64) -> (v: Self)
        requires
            threshold <= ONE,
        ensures
            v.haram_sectors() == set![IndustrySector::Haram],
            v.gharar_threshold() == threshold,
    {
        broadcast use group_hash_axioms;

        let mut haram: HashSet<u8> = HashSet::new();
        haram.insert(sector_key_of(IndustrySector::Haram));
        let v = ShariahValidator { haram_industries: haram, max_uncertainty_threshold: threshold };
        assert(v.haram_sectors() =~= set![IndustrySector::Haram]);
        v
    }

    /// A validator with the default settings: a Gharar threshold of 0.15 and
    /// the Haram sector as the only refused sector.
    pub fn new() -> (v: Self)
        ensures
            v.haram_sectors() == set![IndustrySector::Haram],
            v.gharar_threshold() == DEFAULT_GHARAR_THRESHOLD,
    {
        Self::with_threshold(DEFAULT_GHARAR_THRESHOLD)
    }

    /// A validator with a custom Gharar threshold (millionths), brought
    /// back into the range 0 to 1.0.
    pub fn with_gharar_threshold(threshold: i64) -> (v: Self)
        ensures
            v.haram_sectors() == set![IndustrySector::Haram],
            v.gharar_threshold() == (if threshold < 0 {
                0
            } else if threshold > ONE {
                ONE as int
            } else {
                threshold as int
            }),
    {
        let t: u64 = if threshold < 0 {
            0
        } else if threshold > ONE {
            ONE as u64
        } else {
            threshold as u64
        };
        Self::with_threshold(t)
    }

    /// Validates a contract against every rule. The report depends on the
    /// validator's settings and on the contract alone.
    pub fn validate(&self, contract: &FinancialContract) -> (report: ValidationReport)
        ensures
            report@ == contract_report(self.haram_sectors(), self.gharar_threshold(), *contract),
    {
        proof {
            use_type_invariant(self);
        }
        let mut violations: Vec<ShariahViolation> = Vec::new();
        let mut warnings: Vec<String> = Vec::new();
        assert(violation_views(violations@) =~= Seq::<(ViolationCode, Seq<char>, Seq<char>)>::empty());
        assert(string_views(warnings@) =~= Seq::<Seq<char>>::empty());

        self.validate_industry(contract, &mut violations);
        self.validate_riba(contract, &mut violations);
        self.validate_gharar(contract, &mut violations, &mut warnings);
        self.validate_maysir(contract, &mut violations);
        self.validate_asset_backing(contract, &mut violations);
        self.validate_profit_sharing_ratios(contract, &mut violations);
        self.validate_clarity(contract, &mut violations);

        let ghost c = *contract;
        let ghost haram = self.haram_sectors();
        let ghost t = self.gharar_threshold();
        assert(violation_views(violations@) =~= contract_violations(haram, t, c));
        assert(string_views(warnings@) =~= gharar_warnings(c));
        let is_valid = violations.len() == 0;
        ValidationReport { is_valid, violations, warnings }
    }

    /// Completes a validation whose asset was looked up: `asset_status` is
    /// what the resolver answered for the contract's asset, and is not read
    /// when the contract names no asset. An unknown asset is a
    /// `NoAssetBacking` violation; a resolver error is passed on.
    pub fn validate_with_asset_status(
        &self,
        contract: &FinancialContract,
        asset_status: Result<bool, ShariahError>,
    ) -> (r: Result<ValidationReport, ShariahError>)
        ensures
            match contract.asset_id {
                Some(id) => match asset_status {
                    Err(e) => r == Err::<ValidationReport, ShariahError>(e),
                    Ok(false) => r matches Err(ShariahError::Violation { code, field, message })
                        && code == ViolationCode::NoAssetBacking && field@ == FIELD_ASSET_ID@
                        && message@ == asset_unknown_message(id@),
                    Ok(true) => r matches Ok(report)
                        && report@ == contract_report(self.haram_sectors(), self.gharar_threshold(), *contract),
                },
                None => r matches Ok(report)
                    && report@ == contract_report(self.haram_sectors(), self.gharar_threshold(), *contract),
            },
    {
        match &contract.asset_id {
            Some(id) => match asset_status {
                Err(e) => Err(e),
                Ok(false) => {
                    let mut message = String::from_str(MSG_ASSET_UNKNOWN_BEFORE);
                    message.append(id.as_str());
                    message.append(MSG_ASSET_UNKNOWN_AFTER);
                    Err(ShariahError::Violation {
                        code: ViolationCode::NoAssetBacking,
                        field: String::from_str(FIELD_ASSET_ID),
                        message,
                    })
                },
                Ok(true) => Ok(self.validate(contract)),
            },
            None => Ok(self.validate(contract)),
        }
    }

    // ------------------------------------------------------------------
    // The rules, one by one
    // ------------------------------------------------------------------

    /// The sector must not be Haram, nor Doubtful.
    fn validate_industry(&self, contract: &FinancialContract, violations: &mut Vec<ShariahViolation>)
        ensures
            violation_views(final(violations)@) == violation_views(old(violations)@)
                + industry_violations(self.haram_sectors(), *contract),
    {
        broadcast use group_hash_axioms;

        let ghost v0 = violation_views(violations@);
        if self.haram_industries.contains(&sector_key_of(contract.industry)) {
            push_violation(violations, ViolationCode::HaramIndustry, FIELD_INDUSTRY, String::from_str(MSG_HARAM));
        }
        if contract.industry == IndustrySector::Doubtful {
            push_violation(violations, ViolationCode::HaramIndustry, FIELD_INDUSTRY, String::from_str(MSG_DOUBTFUL));
        }
        assert(violation_views(violations@) =~= v0 + industry_violations(self.haram_sectors(), *contract));
    }

    /// No fixed guaranteed interest.
    fn validate_riba(&self, contract: &FinancialContract, violations: &mut Vec<ShariahViolation>)
        ensures
            violation_views(final(violations)@) == violation_views(old(violations)@) + riba_violations(*contract),
    {
        let ghost v0 = violation_views(violations@);
        match contract.expected_profit_rate {
            Some(rate) => {
                if rate > 0 && contract.contract_type != IslamicContractType::Murabaha {
                    push_violation(violations, ViolationCode::RibaDetected, FIELD_PROFIT_RATE, riba_rate_text(rate));
                } else if rate > 0 && contract.asset_id.is_none() {
                    push_violation(violations, ViolationCode::RibaDetected, FIELD_PROFIT_RATE, String::from_str(MSG_RIBA_UNBACKED));
                }
            },
            None => {},
        }
        match (contract.manager_profit_share, contract.investor_profit_share) {
            (Some(m), Some(i)) => {
                if m as i128 + i as i128 > (ONE + SHARE_TOLERANCE) as i128 {
                    push_violation(violations, ViolationCode::RibaDetected, FIELD_PROFIT_SHARES, shares_over_text(m, i));
                }
            },
            _ => {},
        }
        assert(violation_views(violations@) =~= v0 + riba_violations(*contract));
    }

    /// The uncertainty of the terms must stay within the threshold.
    fn validate_gharar(
        &self,
        contract: &FinancialContract,
        violations: &mut Vec<ShariahViolation>,
        warnings: &mut Vec<String>,
    )
        requires
            self.max_uncertainty_threshold <= ONE,
        ensures
            violation_views(final(violations)@) == violation_views(old(violations)@)
                + gharar_violations(self.gharar_threshold(), *contract),
            string_views(final(warnings)@) == string_views(old(warnings)@)
                + gharar_warnings(*contract),
    {
        let ghost v0 = violation_views(violations@);
        let ghost w0 = string_views(warnings@);
        let n = contract.ambiguous_clauses.len() as u128;
        assert(n * (GHARAR_PER_CLAUSE as u128) <= 0xffff_ffff_ffff_ffff * 100_000) by (nonlinear_arith)
            requires
                n <= 0xffff_ffff_ffff_ffff,
        ;
        let mut uncertainty: u128 = n * (GHARAR_PER_CLAUSE as u128);
        if contract.asset_id.is_none() && contract.contract_type != IslamicContractType::Salam {
            uncertainty = uncertainty + GHARAR_NO_ASSET as u128;
        }
        if !contract.is_fixed_term {
            uncertainty = uncertainty + GHARAR_OPEN_TERM as u128;
            push_warning(warnings, WARN_NOT_FIXED_TERM);
        }
        let far = contract.maturity_timestamp > contract.signing_timestamp
            && contract.maturity_timestamp - contract.signing_timestamp > FIVE_YEARS_SECS;
        if far {
            uncertainty = uncertainty + GHARAR_FAR_MATURITY as u128;
            push_warning(warnings, WARN_FAR_MATURITY);
        }
        assert(uncertainty == crate::rules::uncertainty(*contract));
        if uncertainty > self.max_uncertainty_threshold as u128 {
            push_violation(
                violations,
                ViolationCode::GhararExcessive,
                FIELD_CONTRACT_TERMS,
                gharar_text(uncertainty, self.max_uncertainty_threshold),
            );
        }
        assert(violation_views(violations@) =~= v0 + gharar_violations(self.gharar_threshold(), *contract));
        assert(string_views(warnings@) =~= w0 + gharar_warnings(*contract));
    }

    /// No profit from chance without an underlying asset.
    fn validate_maysir(&self, contract: &FinancialContract, violations: &mut Vec<ShariahViolation>)
        ensures
            violation_views(final(violations)@) == violation_views(old(violations)@) + maysir_violations(*contract),
    {
        let ghost v0 = violation_views(violations@);
        if contract.asset_id.is_none() && contract.expected_profit_rate.is_some() {
            push_violation(violations, ViolationCode::MaysirDetected, FIELD_ASSET_ID, String::from_str(MSG_MAYSIR_UNBACKED));
        }
        if contract.contract_type == IslamicContractType::Salam && contract.asset_id.is_none() {
            push_violation(violations, ViolationCode::MaysirDetected, FIELD_ASSET_ID, String::from_str(MSG_MAYSIR_SALAM));
        }
        assert(violation_views(violations@) =~= v0 + maysir_violations(*contract));
    }

    /// The contract must be backed by a tangible asset or collateral.
    fn validate_asset_backing(&self, contract: &FinancialContract, violations: &mut Vec<ShariahViolation>)
        ensures
            violation_views(final(violations)@) == violation_views(old(violations)@)
                + asset_backing_violations(*contract),
    {
        let ghost v0 = violation_views(violations@);
        let requires_backing = !(contract.contract_type == IslamicContractType::Salam
            || contract.contract_type == IslamicContractType::Istisna);
        if requires_backing && contract.asset_id.is_none() {
            push_violation(violations, ViolationCode::NoAssetBacking, FIELD_ASSET_ID, String::from_str(MSG_NO_ASSET));
        }
        if contract.collateral_amount == 0 && contract.asset_id.is_none() {
            push_violation(violations, ViolationCode::NoAssetBacking, FIELD_COLLATERAL, String::from_str(MSG_NO_COLLATERAL));
        }
        assert(violation_views(violations@) =~= v0 + asset_backing_violations(*contract));
    }

    /// Profit-sharing contracts need positive shares adding up to 100%.
    fn validate_profit_sharing_ratios(&self, contract: &FinancialContract, violations: &mut Vec<ShariahViolation>)
        ensures
            violation_views(final(violations)@) == violation_views(old(violations)@)
                + profit_sharing_violations(*contract),
    {
        let ghost v0 = violation_views(violations@);
        if contract.contract_type == IslamicContractType::Mudarabah
            || contract.contract_type == IslamicContractType::Musharakah {
            match (contract.manager_profit_share, contract.investor_profit_share) {
                (Some(m), Some(i)) => {
                    if m <= 0 || i <= 0 {
                        push_violation(
                            violations,
                            ViolationCode::InvalidProfitRatio,
                            FIELD_PROFIT_SHARING,
                            String::from_str(MSG_SHARES_NOT_POSITIVE),
                        );
                    }
                    let gap = m as i128 + i as i128 - ONE as i128;
                    if gap > SHARE_TOLERANCE as i128 || gap < -(SHARE_TOLERANCE as i128) {
                        push_violation(
                            violations,
                            ViolationCode::InvalidProfitRatio,
                            FIELD_PROFIT_SHARING,
                            shares_sum_text(m, i),
                        );
                    }
                },
                _ => {
                    push_violation(
                        violations,
                        ViolationCode::InvalidProfitRatio,
                        FIELD_PROFIT_SHARING,
                        String::from_str(MSG_SHARES_MISSING),
                    );
                },
            }
        }
        assert(violation_views(violations@) =~= v0 + profit_sharing_violations(*contract));
    }

    /// The dates must be set and ordered, and no clause may be vague.
    fn validate_clarity(&self, contract: &FinancialContract, violations: &mut Vec<ShariahViolation>)
        ensures
            violation_views(final(violations)@) == violation_views(old(violations)@)
                + clarity_violations(*contract),
    {
        let ghost v0 = violation_views(violations@);
        if contract.signing_timestamp == 0 || contract.maturity_timestamp == 0 {
            push_violation(violations, ViolationCode::UnclearTerms, FIELD_TIMESTAMPS, String::from_str(MSG_DATES_MISSING));
        }
        if contract.signing_timestamp >= contract.maturity_timestamp {
            push_violation(violations, ViolationCode::UnclearTerms, FIELD_MATURITY, String::from_str(MSG_DATES_ORDER));
        }
        let ghost v1 = violation_views(violations@);
        let clauses = &contract.ambiguous_clauses;
        let mut k: usize = 0;
        assert(clause_violations(clauses@.subrange(0, 0)) =~= Seq::<(ViolationCode, Seq<char>, Seq<char>)>::empty()) by {
            assert(clauses@.subrange(0, 0).len() == 0);
        }
        assert(v1 + Seq::<(ViolationCode, Seq<char>, Seq<char>)>::empty() =~= v1);
        while k < clauses.len()
            invariant
                k <= clauses@.len(),
                violation_views(violations@) == v1 + clause_violations(clauses@.subrange(0, k as int)),
            decreases clauses@.len() - k,
        {
            let clause = &clauses[k];
            let lower = to_lowercase(clause.as_str());
            if holds_vague_word(lower.as_str()) {
                push_violation(violations, ViolationCode::UnclearTerms, FIELD_CLAUSES, clause_text(clause.as_str()));
            }
            proof {
                let next = clauses@.subrange(0, k + 1);
                assert(next.drop_last() =~= clauses@.subrange(0, k as int));
                assert(next.last() == clauses@[k as int]);
            }
            k = k + 1;
            assert(violation_views(violations@) =~= v1 + clause_violations(clauses@.subrange(0, k as int)));
        }
        assert(clauses@.subrange(0, k as int) =~= clauses@);
        assert(violation_views(violations@) =~= v0 + clarity_violations(*contract));
    }
}

impl Default for ShariahValidator {
    fn default() -> (v: Self)
        ensures
            v.haram_sectors() == set![IndustrySector::Haram],
            v.gharar_threshold() == DEFAULT_GHARAR_THRESHOLD,
    {
        Self::new()
    }
}

} // verus!
