use islamic_shariah_validator::{
    validate_mudarabah, FinancialContract, IndustrySector, IslamicContractType, ShariahError,
    ShariahValidator, ViolationCode, ONE,
};

fn codes(contract: &FinancialContract, validator: &ShariahValidator) -> Vec<ViolationCode> {
    validator
        .validate(contract)
        .violations
        .iter()
        .map(|v| v.code)
        .collect()
}

#[test]
fn mudarabah_admission_rule() {
    assert!(validate_mudarabah(4000, 100_000, "profit_forfeited"));
    assert!(validate_mudarabah(9000, 1, "capital_only"));
    assert!(!validate_mudarabah(9001, 100_000, "profit_forfeited"));
    assert!(!validate_mudarabah(4000, 0, "profit_forfeited"));
    assert!(!validate_mudarabah(u16::MAX, 0, ""));
}

#[test]
fn default_contract_and_default_validator() {
    let c = FinancialContract::default();
    assert_eq!(c.contract_type, IslamicContractType::Mudarabah);
    assert_eq!(c.asset_id.as_deref(), Some("real_estate_001"));
    assert_eq!(c.manager_profit_share, Some(3 * ONE / 10));
    let report = ShariahValidator::default().validate(&c);
    assert!(report.is_valid);
    assert!(report.warnings.is_empty());
}

#[test]
fn riba_message_prints_the_rate() {
    let mut c = FinancialContract::default();
    c.expected_profit_rate = Some(5 * ONE);
    let report = ShariahValidator::new().validate(&c);
    assert_eq!(report.violations[0].code, ViolationCode::RibaDetected);
    assert_eq!(report.violations[0].field, "expected_profit_rate");
    assert_eq!(
        report.violations[0].message,
        "Taux de profit fixe de 5% interdit (Riba) pour ce type de contrat. Le profit doit être partagé ou basé sur un actif tangible."
    );
    c.expected_profit_rate = Some(3_250_000);
    let report = ShariahValidator::new().validate(&c);
    assert!(report.violations[0].message.starts_with("Taux de profit fixe de 3.25% interdit"));
    c.expected_profit_rate = Some(-1);
    let report = ShariahValidator::new().validate(&c);
    assert!(report.is_valid);
}

#[test]
fn murabaha_without_asset_is_riba() {
    let mut c = FinancialContract::default();
    c.contract_type = IslamicContractType::Murabaha;
    c.expected_profit_rate = Some(2 * ONE);
    c.asset_id = None;
    let v = ShariahValidator::with_gharar_threshold(ONE).validate(&c);
    assert_eq!(v.violations[0].code, ViolationCode::RibaDetected);
    assert_eq!(
        v.violations[0].message,
        "Profit fixe sans actif tangible = Riba. La Murabaha doit être adossée à un actif réel."
    );
    assert_eq!(v.violations[1].code, ViolationCode::MaysirDetected);
    assert_eq!(v.violations[2].code, ViolationCode::NoAssetBacking);
}

#[test]
fn shares_messages_use_two_decimals() {
    let mut c = FinancialContract::default();
    c.manager_profit_share = Some(800_000);
    c.investor_profit_share = Some(800_000);
    let report = ShariahValidator::new().validate(&c);
    assert_eq!(report.violations.len(), 2);
    assert_eq!(report.violations[0].field, "profit_shares");
    assert_eq!(
        report.violations[0].message,
        "Somme des parts de profit (0.80 + 0.80) > 100%. Cela peut cacher un intérêt garanti."
    );
    assert_eq!(report.violations[1].code, ViolationCode::InvalidProfitRatio);
    assert_eq!(
        report.violations[1].message,
        "Somme des parts de profit (0.80 + 0.80) doit être égale à 1.0 (100%)."
    );
}

#[test]
fn shares_within_tolerance_are_whole() {
    let mut c = FinancialContract::default();
    c.manager_profit_share = Some(300_001);
    assert!(ShariahValidator::new().validate(&c).is_valid);
    c.manager_profit_share = Some(299_999);
    assert!(ShariahValidator::new().validate(&c).is_valid);
    c.manager_profit_share = Some(300_002);
    assert_eq!(
        codes(&c, &ShariahValidator::new()),
        vec![ViolationCode::RibaDetected, ViolationCode::InvalidProfitRatio]
    );
    c.manager_profit_share = Some(299_998);
    assert_eq!(codes(&c, &ShariahValidator::new()), vec![ViolationCode::InvalidProfitRatio]);
}

#[test]
fn non_positive_share_is_refused() {
    let mut c = FinancialContract::default();
    c.manager_profit_share = Some(0);
    c.investor_profit_share = Some(ONE);
    let report = ShariahValidator::new().validate(&c);
    assert_eq!(report.violations.len(), 1);
    assert_eq!(
        report.violations[0].message,
        "Les parts de profit doivent être strictement positives (> 0)."
    );
    c.manager_profit_share = Some(-250_000);
    c.investor_profit_share = Some(1_250_000);
    assert_eq!(codes(&c, &ShariahValidator::new()), vec![ViolationCode::InvalidProfitRatio]);
    c.investor_profit_share = Some(1_300_000);
    let report = ShariahValidator::new().validate(&c);
    assert_eq!(
        codes(&c, &ShariahValidator::new()),
        vec![
            ViolationCode::RibaDetected,
            ViolationCode::InvalidProfitRatio,
            ViolationCode::InvalidProfitRatio,
        ]
    );
    assert_eq!(
        report.violations[0].message,
        "Somme des parts de profit (-0.25 + 1.30) > 100%. Cela peut cacher un intérêt garanti."
    );
}

#[test]
fn other_types_need_no_shares() {
    let mut c = FinancialContract::default();
    c.contract_type = IslamicContractType::Ijarah;
    c.manager_profit_share = None;
    c.investor_profit_share = None;
    assert!(ShariahValidator::new().validate(&c).is_valid);
}

#[test]
fn gharar_message_and_warnings() {
    let mut c = FinancialContract::default();
    c.ambiguous_clauses = vec!["livraison à la date convenue".to_string()];
    c.is_fixed_term = false;
    c.asset_id = None;
    let report = ShariahValidator::new().validate(&c);
    assert_eq!(report.violations[0].code, ViolationCode::GhararExcessive);
    assert_eq!(report.violations[0].field, "contract_terms");
    assert_eq!(
        report.violations[0].message,
        "Niveau d'incertitude (Gharar) élevé : 0.60 (seuil max : 0.15)."
    );
    assert_eq!(
        report.warnings,
        vec!["Le contrat n'a pas de terme fixe, ce qui augmente le Gharar.".to_string()]
    );
}

#[test]
fn distant_maturity_adds_gharar_and_a_warning() {
    let mut c = FinancialContract::default();
    c.maturity_timestamp = c.signing_timestamp + 157_680_001;
    let report = ShariahValidator::new().validate(&c);
    assert!(!report.is_valid);
    assert_eq!(report.violations.len(), 1);
    assert_eq!(
        report.violations[0].message,
        "Niveau d'incertitude (Gharar) élevé : 0.20 (seuil max : 0.15)."
    );
    assert_eq!(
        report.warnings,
        vec!["Échéance très lointaine (> 5 ans) : assurez-vous que les termes sont extrêmement clairs.".to_string()]
    );
    // exactly five years after the signing is not "more than five years"
    c.maturity_timestamp = c.signing_timestamp + 157_680_000;
    assert!(ShariahValidator::new().validate(&c).is_valid);
}

#[test]
fn threshold_is_clamped() {
    let mut c = FinancialContract::default();
    c.ambiguous_clauses = (0..11).map(|i| format!("clause {}", i)).collect();
    let report = ShariahValidator::with_gharar_threshold(5 * ONE).validate(&c);
    assert_eq!(report.violations.len(), 1);
    assert_eq!(
        report.violations[0].message,
        "Niveau d'incertitude (Gharar) élevé : 1.10 (seuil max : 1.00)."
    );
    let strict = ShariahValidator::with_gharar_threshold(-ONE);
    assert!(strict.validate(&FinancialContract::default()).is_valid);
    let mut one_clause = FinancialContract::default();
    one_clause.ambiguous_clauses = vec!["clause".to_string()];
    let report = strict.validate(&one_clause);
    assert_eq!(
        report.violations[0].message,
        "Niveau d'incertitude (Gharar) élevé : 0.10 (seuil max : 0.00)."
    );
}

#[test]
fn threshold_monotone_on_examples() {
    let mut c = FinancialContract::default();
    c.ambiguous_clauses = vec!["clause ambiguë".to_string()];
    c.is_fixed_term = false;
    assert!(!ShariahValidator::new().validate(&c).is_valid);
    assert!(ShariahValidator::with_gharar_threshold(300_000).validate(&c).is_valid);
    assert!(ShariahValidator::with_gharar_threshold(900_000).validate(&c).is_valid);
}

#[test]
fn industry_is_reported_first() {
    let mut c = FinancialContract::default();
    c.industry = IndustrySector::Doubtful;
    c.asset_id = None;
    c.collateral_amount = 0;
    c.signing_timestamp = 0;
    let report = ShariahValidator::new().validate(&c);
    assert_eq!(report.violations[0].code, ViolationCode::HaramIndustry);
    assert_eq!(
        report.violations[0].message,
        "Secteur douteux (Doubtful) : ce secteur doit être clarifié ou évité par précaution."
    );
    assert_eq!(
        codes(&c, &ShariahValidator::new()),
        vec![
            ViolationCode::HaramIndustry,
            ViolationCode::GhararExcessive,
            ViolationCode::NoAssetBacking,
            ViolationCode::NoAssetBacking,
            ViolationCode::UnclearTerms,
        ]
    );
}

#[test]
fn scoring_is_reproducible() {
    let mut c = FinancialContract::default();
    c.industry = IndustrySector::Haram;
    c.is_fixed_term = false;
    c.maturity_timestamp = u64::MAX;
    let a = ShariahValidator::new().validate(&c);
    let b = ShariahValidator::new().validate(&c.clone());
    assert_eq!(a.is_valid, b.is_valid);
    assert_eq!(a.violations.len(), b.violations.len());
    for (x, y) in a.violations.iter().zip(b.violations.iter()) {
        assert_eq!((x.code, &x.field, &x.message), (y.code, &y.field, &y.message));
    }
    assert_eq!(a.warnings, b.warnings);
    assert_eq!(a.warnings.len(), 2);
}

#[test]
fn vague_words_are_found_in_any_case() {
    let mut c = FinancialContract::default();
    c.ambiguous_clauses = vec![
        "Livraison ENVIRON le 5".to_string(),
        "paiement ferme".to_string(),
        "Prix Selon le marché".to_string(),
    ];
    let validator = ShariahValidator::with_gharar_threshold(ONE);
    let report = validator.validate(&c);
    assert_eq!(report.violations.len(), 2);
    assert_eq!(report.violations[0].field, "ambiguous_clauses");
    assert_eq!(
        report.violations[0].message,
        "Clause ambiguë détectée : 'Livraison ENVIRON le 5'. Contient des termes vagues interdits par la Charia."
    );
    assert_eq!(
        report.violations[1].message,
        "Clause ambiguë détectée : 'Prix Selon le marché'. Contient des termes vagues interdits par la Charia."
    );
    c.ambiguous_clauses = vec!["si possible".to_string(), "PEUT-ÊTRE".to_string()];
    assert_eq!(validator.validate(&c).violations.len(), 2);
}

#[test]
fn missing_dates_are_unclear() {
    let mut c = FinancialContract::default();
    c.signing_timestamp = 0;
    // a maturity in 2023 lies more than five years after a signing at 0
    let report = ShariahValidator::new().validate(&c);
    assert_eq!(report.violations.len(), 2);
    assert_eq!(report.violations[0].code, ViolationCode::GhararExcessive);
    assert_eq!(report.violations[1].field, "timestamps");
    let report = ShariahValidator::with_gharar_threshold(ONE).validate(&c);
    assert_eq!(report.violations.len(), 1);
    assert_eq!(report.violations[0].field, "timestamps");
    c.maturity_timestamp = 0;
    let report = ShariahValidator::new().validate(&c);
    assert_eq!(report.violations.len(), 2);
    assert_eq!(report.violations[1].field, "maturity_timestamp");
}

#[test]
fn istisna_with_collateral_needs_no_asset() {
    let mut c = FinancialContract::default();
    c.contract_type = IslamicContractType::Istisna;
    c.asset_id = None;
    let report = ShariahValidator::with_gharar_threshold(300_000).validate(&c);
    assert!(report.is_valid);
    c.collateral_amount = 0;
    let report = ShariahValidator::with_gharar_threshold(300_000).validate(&c);
    assert_eq!(report.violations.len(), 1);
    assert_eq!(report.violations[0].field, "collateral_amount");
}

#[test]
fn unknown_asset_is_a_violation() {
    let c = FinancialContract::default();
    let v = ShariahValidator::new();
    let r = v.validate_with_asset_status(&c, Ok(false));
    assert_eq!(
        r.unwrap_err(),
        ShariahError::Violation {
            code: ViolationCode::NoAssetBacking,
            field: "asset_id".to_string(),
            message: "L'actif 'real_estate_001' n'existe pas sur le ledger.".to_string(),
        }
    );
    let r = v.validate_with_asset_status(&c, Err(ShariahError::FabricError("down".to_string())));
    assert_eq!(r.unwrap_err(), ShariahError::FabricError("down".to_string()));
    assert!(v.validate_with_asset_status(&c, Ok(true)).unwrap().is_valid);
    let mut no_asset = FinancialContract::default();
    no_asset.asset_id = None;
    let r = v.validate_with_asset_status(&no_asset, Ok(false)).unwrap();
    assert!(!r.is_valid);
}
