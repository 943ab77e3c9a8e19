//! What holds of every validation: a report is valid exactly when the
//! contract complies with each Shariah principle.
use vstd::prelude::*;

use crate::rules::{
    asset_backing_violations, clarity_violations, clause_violations, contract_report,
    contract_violations, gharar_violations, industry_violations,
    is_vague, maysir_violations, profit_sharing_violations, requires_backing, riba_violations,
    shares_exceed_whole, shares_make_whole, shares_profit, uncertainty, FIELD_ASSET_ID,
    FIELD_CLAUSES, FIELD_CONTRACT_TERMS, FIELD_INDUSTRY, FIELD_PROFIT_SHARING, VAGUE_APPROX,
    VAGUE_ENVIRON, VAGUE_PEUT_ETRE, VAGUE_SELON, VAGUE_SI_POSSIBLE, clause_message,
};
use crate::text::{contains_text, lowercase, occurs_at};
use crate::types::{FinancialContract, IndustrySector, IslamicContractType, ViolationCode, ViolationView, ONE};

verus! {

/// Halal industry: the sector is neither on the Haram list nor Doubtful.
pub open spec fn is_halal(haram: Set<IndustrySector>, c: FinancialContract) -> bool {
    !haram.contains(c.industry) && c.industry != IndustrySector::Doubtful
}

/// No Riba: a positive fixed rate appears only in a Murabaha backed by an
/// asset, and the profit shares do not add up to more than 100%.
pub open spec fn is_free_of_riba(c: FinancialContract) -> bool {
    &&& match c.expected_profit_rate {
        Some(rate) => rate <= 0 || (c.contract_type == IslamicContractType::Murabaha && c.asset_id is Some),
        None => true,
    }
    &&& match (c.manager_profit_share, c.investor_profit_share) {
        (Some(m), Some(i)) => !shares_exceed_whole(m as int, i as int),
        _ => true,
    }
}

/// Gharar within bounds: the contract's uncertainty does not exceed the threshold.
pub open spec fn has_acceptable_gharar(threshold: int, c: FinancialContract) -> bool {
    uncertainty(c) <= threshold
}

/// No Maysir: an expected profit comes with an asset, and a Salam names the
/// asset to deliver.
pub open spec fn is_free_of_maysir(c: FinancialContract) -> bool {
    !(c.asset_id is None && c.expected_profit_rate is Some)
        && !(c.contract_type == IslamicContractType::Salam && c.asset_id is None)
}

/// Asset backing: without an asset, the type must not require one and
/// collateral must be given.
pub open spec fn is_asset_backed(c: FinancialContract) -> bool {
    c.asset_id is None ==> (!requires_backing(c.contract_type) && c.collateral_amount != 0)
}

/// Fair profit sharing: a Mudarabah or Musharakah has both shares, each
/// positive, adding up to 100%.
pub open spec fn has_fair_profit_sharing(c: FinancialContract) -> bool {
    shares_profit(c.contract_type) ==> match (c.manager_profit_share, c.investor_profit_share) {
        (Some(m), Some(i)) => m > 0 && i > 0 && shares_make_whole(m as int, i as int),
        _ => false,
    }
}

/// No clause holds a vague word.
pub open spec fn has_no_vague_clause(clauses: Seq<String>) -> bool {
    forall|k: int| 0 <= k < clauses.len() ==> !is_vague(lowercase(#[trigger] clauses[k]@))
}

/// Clear terms: both dates are set, the maturity follows the signing, and no
/// clause is vague.
pub open spec fn has_clear_terms(c: FinancialContract) -> bool {
    &&& c.signing_timestamp != 0
    &&& c.maturity_timestamp != 0
    &&& c.signing_timestamp < c.maturity_timestamp
    &&& has_no_vague_clause(c.ambiguous_clauses@)
}

/// The contract complies with every principle.
pub open spec fn complies(
    haram: Set<IndustrySector>,
    threshold: int,
    c: FinancialContract,
) -> bool {
    &&& is_halal(haram, c)
    &&& is_free_of_riba(c)
    &&& has_acceptable_gharar(threshold, c)
    &&& is_free_of_maysir(c)
    &&& is_asset_backed(c)
    &&& has_fair_profit_sharing(c)
    &&& has_clear_terms(c)
}

/// The clauses give no violation exactly when none of them is vague.
pub proof fn lemma_clause_violations_empty(clauses: Seq<String>)
    ensures
        (clause_violations(clauses).len() == 0) == has_no_vague_clause(clauses),
    decreases clauses.len(),
{
    if clauses.len() > 0 {
        lemma_clause_violations_empty(clauses.drop_last());
        if has_no_vague_clause(clauses) {
            assert(clauses.last() == clauses[clauses.len() - 1]);
            assert forall|k: int| 0 <= k < clauses.drop_last().len() implies !is_vague(
                lowercase(#[trigger] clauses.drop_last()[k]@),
            ) by {
                assert(clauses.drop_last()[k] == clauses[k]);
            }
        }
        if clause_violations(clauses).len() == 0 {
            assert forall|k: int| 0 <= k < clauses.len() implies !is_vague(
                lowercase(#[trigger] clauses[k]@),
            ) by {
                if k < clauses.len() - 1 {
                    assert(clauses.drop_last()[k] == clauses[k]);
                }
            }
        }
    }
}

/// A report is valid exactly when the contract complies with every Shariah
/// principle: Halal industry, no Riba, Gharar within the threshold, no
/// Maysir, asset backing, fair profit sharing and clear terms.
pub proof fn law_valid_iff_compliant(
    haram: Set<IndustrySector>,
    threshold: int,
    c: FinancialContract,
)
    ensures
        contract_report(haram, threshold, c).0 == complies(haram, threshold, c),
        contract_report(haram, threshold, c).0 == (contract_report(haram, threshold, c).1.len() == 0),
{
    lemma_clause_violations_empty(c.ambiguous_clauses@);
    assert((industry_violations(haram, c).len() == 0) == is_halal(haram, c));
    assert((riba_violations(c).len() == 0) == is_free_of_riba(c));
    assert((gharar_violations(threshold, c).len() == 0) == has_acceptable_gharar(threshold, c));
    assert((maysir_violations(c).len() == 0) == is_free_of_maysir(c));
    assert((asset_backing_violations(c).len() == 0) == is_asset_backed(c));
    assert((profit_sharing_violations(c).len() == 0) == has_fair_profit_sharing(c));
    assert((clarity_violations(c).len() == 0) == has_clear_terms(c));
}

/// A contract in a Haram or Doubtful sector is reported, first of all, as a
/// `HaramIndustry` violation.
pub proof fn law_industry_reported_first(
    haram: Set<IndustrySector>,
    threshold: int,
    c: FinancialContract,
)
    requires
        haram.contains(c.industry) || c.industry == IndustrySector::Doubtful,
    ensures
        contract_report(haram, threshold, c).1.len() > 0,
        contract_report(haram, threshold, c).1[0].0 == ViolationCode::HaramIndustry,
{
    let a = industry_violations(haram, c);
    assert(a.len() > 0);
    let s1 = a + riba_violations(c);
    lemma_first_of_concat(a, riba_violations(c));
    let s2 = s1 + gharar_violations(threshold, c);
    lemma_first_of_concat(s1, gharar_violations(threshold, c));
    let s3 = s2 + maysir_violations(c);
    lemma_first_of_concat(s2, maysir_violations(c));
    let s4 = s3 + asset_backing_violations(c);
    lemma_first_of_concat(s3, asset_backing_violations(c));
    let s5 = s4 + profit_sharing_violations(c);
    lemma_first_of_concat(s4, profit_sharing_violations(c));
    lemma_first_of_concat(s5, clarity_violations(c));
}

/// A non-empty sequence keeps its first element in front of anything appended.
proof fn lemma_first_of_concat<A>(a: Seq<A>, b: Seq<A>)
    requires
        a.len() > 0,
    ensures
        (a + b).len() > 0,
        (a + b)[0] == a[0],
{
}

/// With the default Haram list, a Halal sector passes the industry rule, and
/// a Haram or a Doubtful sector gives exactly one `HaramIndustry` violation
/// on the `industry` field.
pub proof fn law_default_industry_rule(c: FinancialContract)
    ensures
        c.industry == IndustrySector::Halal ==> industry_violations(set![IndustrySector::Haram], c).len() == 0,
        c.industry != IndustrySector::Halal ==> {
            &&& industry_violations(set![IndustrySector::Haram], c).len() == 1
            &&& industry_violations(set![IndustrySector::Haram], c)[0].0 == ViolationCode::HaramIndustry
            &&& industry_violations(set![IndustrySector::Haram], c)[0].1 == FIELD_INDUSTRY@
        },
{
}

/// Raising the Gharar threshold never turns a valid report into an invalid one.
pub proof fn law_threshold_monotone(
    haram: Set<IndustrySector>,
    low: int,
    high: int,
    c: FinancialContract,
)
    requires
        low <= high,
        contract_report(haram, low, c).0,
    ensures
        contract_report(haram, high, c).0,
{
    law_valid_iff_compliant(haram, low, c);
    law_valid_iff_compliant(haram, high, c);
}


// ---------------------------------------------------------------------------
// What each rule refuses, stated over the report
// ---------------------------------------------------------------------------

/// Some violation of the report has this code and concerns this field.
pub open spec fn reports(vs: Seq<ViolationView>, code: ViolationCode, field: Seq<char>) -> bool {
    exists|k: int| 0 <= k < vs.len() && (#[trigger] vs[k]).0 == code && vs[k].1 == field
}

proof fn lemma_reports_left(a: Seq<ViolationView>, b: Seq<ViolationView>, code: ViolationCode, field: Seq<char>)
    requires
        reports(a, code, field),
    ensures
        reports(a + b, code, field),
{
    let k = choose|k: int| 0 <= k < a.len() && (#[trigger] a[k]).0 == code && a[k].1 == field;
    assert((a + b)[k] == a[k]);
}

proof fn lemma_reports_right(a: Seq<ViolationView>, b: Seq<ViolationView>, code: ViolationCode, field: Seq<char>)
    requires
        reports(b, code, field),
    ensures
        reports(a + b, code, field),
{
    let k = choose|k: int| 0 <= k < b.len() && (#[trigger] b[k]).0 == code && b[k].1 == field;
    assert((a + b)[a.len() + k] == b[k]);
}

/// A violation of one rule is a violation of the whole report.
proof fn lemma_rule_reported(
    haram: Set<IndustrySector>,
    threshold: int,
    c: FinancialContract,
    code: ViolationCode,
    field: Seq<char>,
)
    requires
        reports(industry_violations(haram, c), code, field)
            || reports(riba_violations(c), code, field)
            || reports(gharar_violations(threshold, c), code, field)
            || reports(maysir_violations(c), code, field)
            || reports(asset_backing_violations(c), code, field)
            || reports(profit_sharing_violations(c), code, field)
            || reports(clarity_violations(c), code, field),
    ensures
        reports(contract_report(haram, threshold, c).1, code, field),
        !contract_report(haram, threshold, c).0,
{
    let a = industry_violations(haram, c);
    let b = riba_violations(c);
    let g = gharar_violations(threshold, c);
    let m = maysir_violations(c);
    let k = asset_backing_violations(c);
    let p = profit_sharing_violations(c);
    let l = clarity_violations(c);
    if reports(a, code, field) { lemma_reports_left(a, b, code, field); }
    if reports(b, code, field) { lemma_reports_right(a, b, code, field); }
    if reports(a + b, code, field) { lemma_reports_left(a + b, g, code, field); }
    if reports(g, code, field) { lemma_reports_right(a + b, g, code, field); }
    if reports(a + b + g, code, field) { lemma_reports_left(a + b + g, m, code, field); }
    if reports(m, code, field) { lemma_reports_right(a + b + g, m, code, field); }
    if reports(a + b + g + m, code, field) { lemma_reports_left(a + b + g + m, k, code, field); }
    if reports(k, code, field) { lemma_reports_right(a + b + g + m, k, code, field); }
    if reports(a + b + g + m + k, code, field) { lemma_reports_left(a + b + g + m + k, p, code, field); }
    if reports(p, code, field) { lemma_reports_right(a + b + g + m + k, p, code, field); }
    if reports(a + b + g + m + k + p, code, field) { lemma_reports_left(a + b + g + m + k + p, l, code, field); }
    if reports(l, code, field) { lemma_reports_right(a + b + g + m + k + p, l, code, field); }
    assert(contract_report(haram, threshold, c).1 == a + b + g + m + k + p + l);
}

/// Gharar: a contract that names no asset and is not a Salam (whatever its
/// other type: Istisna, Ijarah, Murabaha, ...) scores at least 0.3, so under
/// any threshold below 0.3 it gets a `GhararExcessive` violation on its
/// terms and is not valid.
pub proof fn law_missing_asset_raises_gharar(
    haram: Set<IndustrySector>,
    threshold: int,
    c: FinancialContract,
)
    requires
        c.asset_id is None,
        c.contract_type != IslamicContractType::Salam,
        threshold < 300_000,
    ensures
        reports(contract_report(haram, threshold, c).1, ViolationCode::GhararExcessive, FIELD_CONTRACT_TERMS@),
        !contract_report(haram, threshold, c).0,
{
    let g = gharar_violations(threshold, c);
    assert(uncertainty(c) >= 300_000);
    assert(g[0].0 == ViolationCode::GhararExcessive && g[0].1 == FIELD_CONTRACT_TERMS@);
    lemma_rule_reported(haram, threshold, c, ViolationCode::GhararExcessive, FIELD_CONTRACT_TERMS@);
}

/// Asset backing: every contract that names no asset and is neither a Salam
/// nor an Istisna (Mudarabah, Musharakah, Murabaha, Ijarah) gets a
/// `NoAssetBacking` violation on `asset_id` and is not valid, whatever the
/// validator's settings.
pub proof fn law_missing_asset_is_unbacked(
    haram: Set<IndustrySector>,
    threshold: int,
    c: FinancialContract,
)
    requires
        c.asset_id is None,
        c.contract_type != IslamicContractType::Salam,
        c.contract_type != IslamicContractType::Istisna,
    ensures
        reports(contract_report(haram, threshold, c).1, ViolationCode::NoAssetBacking, FIELD_ASSET_ID@),
        !contract_report(haram, threshold, c).0,
{
    let k = asset_backing_violations(c);
    assert(k[0].0 == ViolationCode::NoAssetBacking && k[0].1 == FIELD_ASSET_ID@);
    lemma_rule_reported(haram, threshold, c, ViolationCode::NoAssetBacking, FIELD_ASSET_ID@);
}

/// Profit sharing: a Mudarabah or a Musharakah is valid only with both
/// shares present, each positive, adding up to 100% within one millionth;
/// and one with a share missing gets an `InvalidProfitRatio` violation on
/// `profit_sharing`.
pub proof fn law_partnership_needs_fair_shares(
    haram: Set<IndustrySector>,
    threshold: int,
    c: FinancialContract,
)
    requires
        c.contract_type == IslamicContractType::Mudarabah || c.contract_type == IslamicContractType::Musharakah,
    ensures
        contract_report(haram, threshold, c).0 ==> (c.manager_profit_share matches Some(m)
            && c.investor_profit_share matches Some(i) && m > 0 && i > 0
            && ONE - 1 <= m + i <= ONE + 1),
        (c.manager_profit_share is None || c.investor_profit_share is None) ==> reports(
            contract_report(haram, threshold, c).1,
            ViolationCode::InvalidProfitRatio,
            FIELD_PROFIT_SHARING@,
        ),
{
    law_valid_iff_compliant(haram, threshold, c);
    if c.manager_profit_share is None || c.investor_profit_share is None {
        let p = profit_sharing_violations(c);
        assert(p[0].0 == ViolationCode::InvalidProfitRatio && p[0].1 == FIELD_PROFIT_SHARING@);
        lemma_rule_reported(haram, threshold, c, ViolationCode::InvalidProfitRatio, FIELD_PROFIT_SHARING@);
    }
}

// ---------------------------------------------------------------------------
// Substrings and vague clauses
// ---------------------------------------------------------------------------

/// A text contains a word exactly when the word is one of its substrings,
/// starting at any position.
pub proof fn law_contains_text_is_substring(hay: Seq<char>, needle: Seq<char>)
    ensures
        contains_text(hay, needle) <==> exists|i: int|
            0 <= i && i + needle.len() <= hay.len()
                && #[trigger] hay.subrange(i, i + needle.len()) == needle,
{
    if contains_text(hay, needle) {
        let i = choose|i: int| occurs_at(hay, needle, i);
        assert(hay.subrange(i, i + needle.len()) =~= needle);
    }
    if exists|i: int|
        0 <= i && i + needle.len() <= hay.len() && #[trigger] hay.subrange(i, i + needle.len()) == needle {
        let i = choose|i: int|
            0 <= i && i + needle.len() <= hay.len() && #[trigger] hay.subrange(i, i + needle.len()) == needle;
        assert forall|j: int| 0 <= j < needle.len() implies hay[i + j] == needle[j] by {
            assert(hay.subrange(i, i + needle.len())[j] == hay[i + j]);
        }
        assert(occurs_at(hay, needle, i));
    }
}

/// The clause at position `k` gives its own violation among the clauses'.
proof fn lemma_vague_clause_in_list(clauses: Seq<String>, k: int)
    requires
        0 <= k < clauses.len(),
        is_vague(lowercase(clauses[k]@)),
    ensures
        clause_violations(clauses).contains(
            (ViolationCode::UnclearTerms, FIELD_CLAUSES@, clause_message(clauses[k]@)),
        ),
    decreases clauses.len(),
{
    let x = (ViolationCode::UnclearTerms, FIELD_CLAUSES@, clause_message(clauses[k]@));
    let front = clause_violations(clauses.drop_last());
    let back = crate::rules::when(
        is_vague(lowercase(clauses.last()@)),
        (ViolationCode::UnclearTerms, FIELD_CLAUSES@, clause_message(clauses.last()@)),
    );
    assert(clause_violations(clauses) == front + back);
    if k == clauses.len() - 1 {
        assert(back[0] == x);
        assert((front + back)[front.len() as int] == x);
    } else {
        assert(clauses.drop_last()[k] == clauses[k]);
        lemma_vague_clause_in_list(clauses.drop_last(), k);
        let j = choose|j: int| 0 <= j < front.len() && front[j] == x;
        assert((front + back)[j] == x);
    }
}

/// Clarity: a clause whose lowercase text holds one of the vague words
/// (`environ`, `peut-être`, `si possible`, `approximativement`, `selon`) at
/// any position is reported as an `UnclearTerms` violation on
/// `ambiguous_clauses` quoting the clause, and the contract is not valid.
pub proof fn law_vague_word_anywhere_is_reported(
    haram: Set<IndustrySector>,
    threshold: int,
    c: FinancialContract,
    k: int,
    word: Seq<char>,
    at: int,
)
    requires
        0 <= k < c.ambiguous_clauses@.len(),
        word == VAGUE_ENVIRON@ || word == VAGUE_PEUT_ETRE@ || word == VAGUE_SI_POSSIBLE@
            || word == VAGUE_APPROX@ || word == VAGUE_SELON@,
        0 <= at,
        at + word.len() <= lowercase(c.ambiguous_clauses@[k]@).len(),
        lowercase(c.ambiguous_clauses@[k]@).subrange(at, at + word.len()) == word,
    ensures
        contract_report(haram, threshold, c).1.contains(
            (ViolationCode::UnclearTerms, FIELD_CLAUSES@, clause_message(c.ambiguous_clauses@[k]@)),
        ),
        !contract_report(haram, threshold, c).0,
{
    let clauses = c.ambiguous_clauses@;
    let lower = lowercase(clauses[k]@);
    law_contains_text_is_substring(lower, word);
    assert(contains_text(lower, word));
    assert(is_vague(lower));
    lemma_vague_clause_in_list(clauses, k);
    let x = (ViolationCode::UnclearTerms, FIELD_CLAUSES@, clause_message(clauses[k]@));
    let cv = clause_violations(clauses);
    let j = choose|j: int| 0 <= j < cv.len() && cv[j] == x;
    let l = clarity_violations(c);
    let head = crate::rules::when(
        c.signing_timestamp == 0 || c.maturity_timestamp == 0,
        (ViolationCode::UnclearTerms, crate::rules::FIELD_TIMESTAMPS@, crate::rules::MSG_DATES_MISSING@),
    ) + crate::rules::when(
        c.signing_timestamp >= c.maturity_timestamp,
        (ViolationCode::UnclearTerms, crate::rules::FIELD_MATURITY@, crate::rules::MSG_DATES_ORDER@),
    );
    assert(l == head + cv);
    assert(l[head.len() + j] == x);
    let rest = industry_violations(haram, c) + riba_violations(c) + gharar_violations(threshold, c)
        + maysir_violations(c) + asset_backing_violations(c) + profit_sharing_violations(c);
    assert(contract_report(haram, threshold, c).1 == rest + l);
    assert((rest + l)[rest.len() + head.len() + j] == x);
}

} // verus!
