//! The Shariah rules, stated as functions from a contract to the violations
//! and warnings it gives rise to, and the messages that explain them.
use vstd::prelude::*;

use crate::text::{
    append_fixed, append_fixed2, contains_text, fixed2_text, fixed_text, lowercase, str_contains,
};
use crate::types::{
    FinancialContract, IndustrySector, IslamicContractType, ViolationCode, ViolationView, ONE,
};

verus! {

// ---------------------------------------------------------------------------
// Fields named by violations
// ---------------------------------------------------------------------------

pub const FIELD_INDUSTRY: &'static str = "industry";
pub const FIELD_PROFIT_RATE: &'static str = "expected_profit_rate";
pub const FIELD_PROFIT_SHARES: &'static str = "profit_shares";
pub const FIELD_CONTRACT_TERMS: &'static str = "contract_terms";
pub const FIELD_ASSET_ID: &'static str = "asset_id";
pub const FIELD_COLLATERAL: &'static str = "collateral_amount";
pub const FIELD_PROFIT_SHARING: &'static str = "profit_sharing";
pub const FIELD_TIMESTAMPS: &'static str = "timestamps";
pub const FIELD_MATURITY: &'static str = "maturity_timestamp";
pub const FIELD_CLAUSES: &'static str = "ambiguous_clauses";

// ---------------------------------------------------------------------------
// Messages
// ---------------------------------------------------------------------------

pub const MSG_HARAM: &'static str = "Secteur Haram (interdit) : les activités liées à l'alcool, au porc, aux jeux d'argent, à la pornographie, etc. sont interdites.";
pub const MSG_DOUBTFUL: &'static str = "Secteur douteux (Doubtful) : ce secteur doit être clarifié ou évité par précaution.";
pub const MSG_RIBA_RATE_BEFORE: &'static str = "Taux de profit fixe de ";
pub const MSG_RIBA_RATE_AFTER: &'static str = "% interdit (Riba) pour ce type de contrat. Le profit doit être partagé ou basé sur un actif tangible.";
pub const MSG_RIBA_UNBACKED: &'static str = "Profit fixe sans actif tangible = Riba. La Murabaha doit être adossée à un actif réel.";
pub const MSG_SHARES_BEFORE: &'static str = "Somme des parts de profit (";
pub const MSG_SHARES_BETWEEN: &'static str = " + ";
pub const MSG_SHARES_OVER_AFTER: &'static str = ") > 100%. Cela peut cacher un intérêt garanti.";
pub const WARN_NOT_FIXED_TERM: &'static str = "Le contrat n'a pas de terme fixe, ce qui augmente le Gharar.";
pub const WARN_FAR_MATURITY: &'static str = "Échéance très lointaine (> 5 ans) : assurez-vous que les termes sont extrêmement clairs.";
pub const MSG_GHARAR_BEFORE: &'static str = "Niveau d'incertitude (Gharar) élevé : ";
pub const MSG_GHARAR_BETWEEN: &'static str = " (seuil max : ";
pub const MSG_GHARAR_AFTER: &'static str = ").";
pub const MSG_MAYSIR_UNBACKED: &'static str = "Profit attendu sans actif sous-jacent identifié. Cela s'apparente à du Maysir (spéculation pure).";
pub const MSG_MAYSIR_SALAM: &'static str = "Un contrat Salam doit obligatoirement spécifier l'actif à livrer, sinon c'est du Maysir.";
pub const MSG_NO_ASSET: &'static str = "Pas d'actif tangible associé. Asset-Backing requis pour ce type de contrat.";
pub const MSG_NO_COLLATERAL: &'static str = "Aucun collatéral fourni pour un contrat sans actif tangible. Violation du principe d'Asset-Backing.";
pub const MSG_SHARES_MISSING: &'static str = "Parts de profit (manager et investisseur) requises pour ce type de contrat.";
pub const MSG_SHARES_NOT_POSITIVE: &'static str = "Les parts de profit doivent être strictement positives (> 0).";
pub const MSG_SHARES_SUM_AFTER: &'static str = ") doit être égale à 1.0 (100%).";
pub const MSG_DATES_MISSING: &'static str = "Dates de signature ou d'échéance manquantes ou nulles. Clause ambiguë.";
pub const MSG_DATES_ORDER: &'static str = "La date d'échéance doit être postérieure à la date de signature.";
pub const MSG_CLAUSE_BEFORE: &'static str = "Clause ambiguë détectée : '";
pub const MSG_CLAUSE_AFTER: &'static str = "'. Contient des termes vagues interdits par la Charia.";

/// Words that make a clause vague (matched in its lowercase form).
pub const VAGUE_ENVIRON: &'static str = "environ";
pub const VAGUE_PEUT_ETRE: &'static str = "peut-être";
pub const VAGUE_SI_POSSIBLE: &'static str = "si possible";
pub const VAGUE_APPROX: &'static str = "approximativement";
pub const VAGUE_SELON: &'static str = "selon";

// ---------------------------------------------------------------------------
// Quantities
// ---------------------------------------------------------------------------

/// Tolerance on a sum of profit shares, in millionths (1e-6).
pub const SHARE_TOLERANCE: i64 = 1;

/// Gharar added by each ambiguous clause (0.1).
pub const GHARAR_PER_CLAUSE: u64 = 100_000;
/// Gharar added when no asset is identified outside a Salam (0.3).
pub const GHARAR_NO_ASSET: u64 = 300_000;
/// Gharar added by an open-ended term (0.2).
pub const GHARAR_OPEN_TERM: u64 = 200_000;
/// Gharar added by a maturity more than five years away (0.2).
pub const GHARAR_FAR_MATURITY: u64 = 200_000;
/// Five years of 365 days, in seconds.
pub const FIVE_YEARS_SECS: u64 = 157_680_000;

/// Gharar threshold of a default validator (0.15).
pub const DEFAULT_GHARAR_THRESHOLD: u64 = 150_000;

// ---------------------------------------------------------------------------
// Message texts
// ---------------------------------------------------------------------------

pub open spec fn riba_rate_message(rate: int) -> Seq<char> {
    MSG_RIBA_RATE_BEFORE@ + fixed_text(rate) + MSG_RIBA_RATE_AFTER@
}

pub open spec fn shares_over_message(manager: int, investor: int) -> Seq<char> {
    MSG_SHARES_BEFORE@ + fixed2_text(manager) + MSG_SHARES_BETWEEN@ + fixed2_text(investor)
        + MSG_SHARES_OVER_AFTER@
}

pub open spec fn shares_sum_message(manager: int, investor: int) -> Seq<char> {
    MSG_SHARES_BEFORE@ + fixed2_text(manager) + MSG_SHARES_BETWEEN@ + fixed2_text(investor)
        + MSG_SHARES_SUM_AFTER@
}

pub open spec fn gharar_message(uncertainty: int, threshold: int) -> Seq<char> {
    MSG_GHARAR_BEFORE@ + fixed2_text(uncertainty) + MSG_GHARAR_BETWEEN@ + fixed2_text(threshold)
        + MSG_GHARAR_AFTER@
}

pub open spec fn clause_message(clause: Seq<char>) -> Seq<char> {
    MSG_CLAUSE_BEFORE@ + clause + MSG_CLAUSE_AFTER@
}

// ---------------------------------------------------------------------------
// The rules
// ---------------------------------------------------------------------------

/// One violation when `b` holds, none otherwise.
pub open spec fn when(b: bool, v: ViolationView) -> Seq<ViolationView> {
    if b { seq![v] } else { seq![] }
}

/// Halal industry: a sector of the validator's Haram list is refused, and so
/// is a Doubtful sector.
pub open spec fn industry_violations(haram: Set<IndustrySector>, c: FinancialContract) -> Seq<ViolationView> {
    when(haram.contains(c.industry), (ViolationCode::HaramIndustry, FIELD_INDUSTRY@, MSG_HARAM@))
        + when(c.industry == IndustrySector::Doubtful, (ViolationCode::HaramIndustry, FIELD_INDUSTRY@, MSG_DOUBTFUL@))
}

/// The profit shares add up to more than 100% (beyond the tolerance).
pub open spec fn shares_exceed_whole(manager: int, investor: int) -> bool {
    manager + investor > ONE + SHARE_TOLERANCE
}

/// Riba: a positive fixed rate is interest, except in a Murabaha backed by an
/// asset; profit shares that add up to more than 100% may hide interest.
pub open spec fn riba_violations(c: FinancialContract) -> Seq<ViolationView> {
    (match c.expected_profit_rate {
        Some(rate) => if rate > 0 && c.contract_type != IslamicContractType::Murabaha {
            seq![(ViolationCode::RibaDetected, FIELD_PROFIT_RATE@, riba_rate_message(rate as int))]
        } else if rate > 0 && c.asset_id is None {
            seq![(ViolationCode::RibaDetected, FIELD_PROFIT_RATE@, MSG_RIBA_UNBACKED@)]
        } else {
            seq![]
        },
        None => seq![],
    }) + match (c.manager_profit_share, c.investor_profit_share) {
        (Some(m), Some(i)) => when(
            shares_exceed_whole(m as int, i as int),
            (ViolationCode::RibaDetected, FIELD_PROFIT_SHARES@, shares_over_message(m as int, i as int)),
        ),
        _ => seq![],
    }
}

/// The maturity lies more than five years after the signing.
pub open spec fn far_maturity(c: FinancialContract) -> bool {
    c.maturity_timestamp > c.signing_timestamp + FIVE_YEARS_SECS
}

/// The Gharar score of a contract, in millionths.
pub open spec fn uncertainty(c: FinancialContract) -> int {
    c.ambiguous_clauses@.len() * GHARAR_PER_CLAUSE
        + (if c.asset_id is None && c.contract_type != IslamicContractType::Salam { GHARAR_NO_ASSET as int } else { 0 })
        + (if !c.is_fixed_term { GHARAR_OPEN_TERM as int } else { 0 })
        + (if far_maturity(c) { GHARAR_FAR_MATURITY as int } else { 0 })
}

/// Gharar: a score above the threshold is excessive uncertainty.
pub open spec fn gharar_violations(threshold: int, c: FinancialContract) -> Seq<ViolationView> {
    when(
        uncertainty(c) > threshold,
        (ViolationCode::GhararExcessive, FIELD_CONTRACT_TERMS@, gharar_message(uncertainty(c), threshold)),
    )
}

/// The warnings of the Gharar rule: an open-ended term, a maturity more than five years after the signing.
pub open spec fn gharar_warnings(c: FinancialContract) -> Seq<Seq<char>> {
    (if !c.is_fixed_term { seq![WARN_NOT_FIXED_TERM@] } else { seq![] })
        + (if far_maturity(c) { seq![WARN_FAR_MATURITY@] } else { seq![] })
}

/// Maysir: a profit expected without an identified asset is speculation, and
/// a Salam must name the asset to deliver.
pub open spec fn maysir_violations(c: FinancialContract) -> Seq<ViolationView> {
    when(
        c.asset_id is None && c.expected_profit_rate is Some,
        (ViolationCode::MaysirDetected, FIELD_ASSET_ID@, MSG_MAYSIR_UNBACKED@),
    ) + when(
        c.contract_type == IslamicContractType::Salam && c.asset_id is None,
        (ViolationCode::MaysirDetected, FIELD_ASSET_ID@, MSG_MAYSIR_SALAM@),
    )
}

/// Contract types that must be backed by a tangible asset (all but Salam and Istisna).
pub open spec fn requires_backing(t: IslamicContractType) -> bool {
    !(t == IslamicContractType::Salam || t == IslamicContractType::Istisna)
}

/// Asset backing: an asset is required for most types, and a contract
/// without an asset needs collateral.
pub open spec fn asset_backing_violations(c: FinancialContract) -> Seq<ViolationView> {
    when(
        requires_backing(c.contract_type) && c.asset_id is None,
        (ViolationCode::NoAssetBacking, FIELD_ASSET_ID@, MSG_NO_ASSET@),
    ) + when(
        c.collateral_amount == 0 && c.asset_id is None,
        (ViolationCode::NoAssetBacking, FIELD_COLLATERAL@, MSG_NO_COLLATERAL@),
    )
}

/// Contract types whose profit is shared between manager and investor.
pub open spec fn shares_profit(t: IslamicContractType) -> bool {
    t == IslamicContractType::Mudarabah || t == IslamicContractType::Musharakah
}

/// The two shares add up to 100% within the tolerance.
pub open spec fn shares_make_whole(manager: int, investor: int) -> bool {
    -SHARE_TOLERANCE <= manager + investor - ONE <= SHARE_TOLERANCE
}

/// Profit sharing: a Mudarabah or Musharakah needs both shares, each
/// positive, adding up to 100%.
pub open spec fn profit_sharing_violations(c: FinancialContract) -> Seq<ViolationView> {
    if shares_profit(c.contract_type) {
        match (c.manager_profit_share, c.investor_profit_share) {
            (Some(m), Some(i)) => when(
                m <= 0 || i <= 0,
                (ViolationCode::InvalidProfitRatio, FIELD_PROFIT_SHARING@, MSG_SHARES_NOT_POSITIVE@),
            ) + when(
                !shares_make_whole(m as int, i as int),
                (ViolationCode::InvalidProfitRatio, FIELD_PROFIT_SHARING@, shares_sum_message(m as int, i as int)),
            ),
            _ => seq![(ViolationCode::InvalidProfitRatio, FIELD_PROFIT_SHARING@, MSG_SHARES_MISSING@)],
        }
    } else {
        seq![]
    }
}

/// A lowercase clause holds one of the vague words.
pub open spec fn is_vague(lower: Seq<char>) -> bool {
    ||| contains_text(lower, VAGUE_ENVIRON@)
    ||| contains_text(lower, VAGUE_PEUT_ETRE@)
    ||| contains_text(lower, VAGUE_SI_POSSIBLE@)
    ||| contains_text(lower, VAGUE_APPROX@)
    ||| contains_text(lower, VAGUE_SELON@)
}

/// One violation per vague clause, in the order of the clauses.
pub open spec fn clause_violations(clauses: Seq<String>) -> Seq<ViolationView>
    decreases clauses.len(),
{
    if clauses.len() == 0 {
        seq![]
    } else {
        clause_violations(clauses.drop_last()) + when(
            is_vague(lowercase(clauses.last()@)),
            (ViolationCode::UnclearTerms, FIELD_CLAUSES@, clause_message(clauses.last()@)),
        )
    }
}

/// Clarity: both dates must be set, the maturity must follow the signing,
/// and no clause may be vague.
pub open spec fn clarity_violations(c: FinancialContract) -> Seq<ViolationView> {
    when(
        c.signing_timestamp == 0 || c.maturity_timestamp == 0,
        (ViolationCode::UnclearTerms, FIELD_TIMESTAMPS@, MSG_DATES_MISSING@),
    ) + when(
        c.signing_timestamp >= c.maturity_timestamp,
        (ViolationCode::UnclearTerms, FIELD_MATURITY@, MSG_DATES_ORDER@),
    ) + clause_violations(c.ambiguous_clauses@)
}

/// All the violations of a contract, rule after rule: industry, Riba,
/// Gharar, Maysir, asset backing, profit sharing, clarity.
pub open spec fn contract_violations(
    haram: Set<IndustrySector>,
    threshold: int,
    c: FinancialContract,
) -> Seq<ViolationView> {
    industry_violations(haram, c) + riba_violations(c) + gharar_violations(threshold, c)
        + maysir_violations(c) + asset_backing_violations(c) + profit_sharing_violations(c)
        + clarity_violations(c)
}

/// The report on a contract: valid exactly when no rule is violated.
pub open spec fn contract_report(
    haram: Set<IndustrySector>,
    threshold: int,
    c: FinancialContract,
) -> (bool, Seq<ViolationView>, Seq<Seq<char>>) {
    let vs = contract_violations(haram, threshold, c);
    (vs.len() == 0, vs, gharar_warnings(c))
}

// ---------------------------------------------------------------------------
// Building the messages
// ---------------------------------------------------------------------------

pub fn riba_rate_text(rate: i64) -> (m: String)
    ensures
        m@ == riba_rate_message(rate as int),
{
    let mut m = String::from_str(MSG_RIBA_RATE_BEFORE);
    append_fixed(&mut m, rate);
    m.append(MSG_RIBA_RATE_AFTER);
    m
}

fn shares_text(manager: i64, investor: i64, tail: &str) -> (m: String)
    ensures
        m@ == MSG_SHARES_BEFORE@ + fixed2_text(manager as int) + MSG_SHARES_BETWEEN@
            + fixed2_text(investor as int) + tail@,
{
    let mut m = String::from_str(MSG_SHARES_BEFORE);
    append_fixed2(&mut m, manager as i128);
    m.append(MSG_SHARES_BETWEEN);
    append_fixed2(&mut m, investor as i128);
    m.append(tail);
    m
}

pub fn shares_over_text(manager: i64, investor: i64) -> (m: String)
    ensures
        m@ == shares_over_message(manager as int, investor as int),
{
    shares_text(manager, investor, MSG_SHARES_OVER_AFTER)
}

pub fn shares_sum_text(manager: i64, investor: i64) -> (m: String)
    ensures
        m@ == shares_sum_message(manager as int, investor as int),
{
    shares_text(manager, investor, MSG_SHARES_SUM_AFTER)
}

pub fn gharar_text(uncertainty: u128, threshold: u64) -> (m: String)
    requires
        uncertainty <= 0x7fff_ffff_ffff_ffff_ffff_ffff_ffff_ffff,
    ensures
        m@ == gharar_message(uncertainty as int, threshold as int),
{
    let mut m = String::from_str(MSG_GHARAR_BEFORE);
    append_fixed2(&mut m, uncertainty as i128);
    m.append(MSG_GHARAR_BETWEEN);
    append_fixed2(&mut m, threshold as i128);
    m.append(MSG_GHARAR_AFTER);
    m
}

pub fn clause_text(clause: &str) -> (m: String)
    ensures
        m@ == clause_message(clause@),
{
    let mut m = String::from_str(MSG_CLAUSE_BEFORE);
    m.append(clause);
    m.append(MSG_CLAUSE_AFTER);
    m
}

/// Whether a lowercase clause holds one of the vague words.
pub fn holds_vague_word(lower: &str) -> (r: bool)
    ensures
        r == is_vague(lower@),
{
    str_contains(lower, VAGUE_ENVIRON) || str_contains(lower, VAGUE_PEUT_ETRE)
        || str_contains(lower, VAGUE_SI_POSSIBLE) || str_contains(lower, VAGUE_APPROX)
        || str_contains(lower, VAGUE_SELON)
}

} // verus!
