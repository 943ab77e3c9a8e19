use islamic_shariah_validator::{
    IndyLedgerConfig, IndyWalletConfig, PROJECT_NAME, REPOSITORY, VERSION,
    is_investor_eligibility_credential, validate_with_fabric, FabricClientWrapper,
    FinancialContract, MockIndyClient, NymClientWrapper, ShariahValidator, VerifiableCredential,
};

#[test]
fn test_fabric_module_exists() {
    let _ = FabricClientWrapper::new();
}

#[test]
fn test_nym_module_exists() {
    let _ = NymClientWrapper::new();
}

#[test]
fn fabric_client_knows_every_asset() {
    let client = FabricClientWrapper::new();
    assert_eq!(client.asset_exists("real_estate_001"), Ok(true));
    assert_eq!(client.asset_exists(""), Ok(true));
}

#[test]
fn fabric_validation_gives_the_default_report() {
    let client = FabricClientWrapper::new();
    let contract = FinancialContract::default();
    let report = validate_with_fabric(&contract, &client).unwrap();
    assert!(report.is_valid);
    let mut bad = FinancialContract::default();
    bad.manager_profit_share = None;
    let report = validate_with_fabric(&bad, &client).unwrap();
    assert!(!report.is_valid);
    assert_eq!(report.violations.len(), 1);
}

#[test]
fn nym_accepts_every_report() {
    let client = NymClientWrapper::new();
    let report = ShariahValidator::new().validate(&FinancialContract::default());
    assert_eq!(client.send_report(&report, "nym-recipient"), Ok(()));
}

#[test]
fn mock_did_has_indy_shape() {
    let mock = MockIndyClient::new();
    let did = mock.create_did(None, [0x11; 16]).unwrap();
    assert!(did.did.starts_with("did:indy:"));
    assert_eq!(did.did.len(), "did:indy:".len() + 36);
    let uuid: Vec<char> = did.did["did:indy:".len()..].chars().collect();
    for (k, c) in uuid.iter().enumerate() {
        if k == 8 || k == 13 || k == 18 || k == 23 {
            assert_eq!(*c, '-');
        } else {
            assert!(c.is_ascii_hexdigit() && !c.is_ascii_uppercase());
        }
    }
    assert_eq!(uuid[14], '4');
    assert!(matches!(uuid[19], '8' | '9' | 'a' | 'b'));
    assert_eq!(did.verkey, format!("verkey_{}", did.did));
    assert!(did.seed.is_none());
    assert!(did.role.is_none());
    let seeded = mock.create_did(Some("000000000000000000000000Steward1"), [0xff; 16]).unwrap();
    assert_eq!(seeded.seed.as_deref(), Some("000000000000000000000000Steward1"));
    assert_ne!(seeded.did, did.did);
}

#[test]
fn assembled_credential_is_investor_eligibility() {
    let mock = MockIndyClient::new();
    let vc = mock.assemble_credential(
        "did:indy:issuer",
        serde_json::Value::String("subject".to_string()),
        serde_json::Value::Null,
        [0u8; 16],
    );
    assert_eq!(vc.id.as_deref(), Some("cred:00000000-0000-4000-8000-000000000000"));
    assert_eq!(vc.context, vec!["https://www.w3.org/2018/credentials/v1".to_string()]);
    assert_eq!(
        vc.type_,
        vec!["VerifiableCredential".to_string(), "InvestorEligibility".to_string()]
    );
    assert_eq!(vc.issuer, "did:indy:issuer");
    assert!(vc.id.as_ref().unwrap().starts_with("cred:"));
    assert_eq!(vc.id.as_ref().unwrap().len(), 5 + 36);
    assert_eq!(vc.credential_subject, serde_json::Value::String("subject".to_string()));
    assert!(vc.proof.is_null());
    assert!(is_investor_eligibility_credential(&vc));
}

#[test]
fn credential_without_investor_type_is_not_eligible() {
    let vc = VerifiableCredential {
        context: vec![],
        id: None,
        type_: vec!["VerifiableCredential".to_string(), "investoreligibility".to_string()],
        issuer: "did:indy:x".to_string(),
        issuance_date: "2024-01-01T00:00:00+00:00".to_string(),
        credential_subject: serde_json::Value::Null,
        proof: serde_json::Value::Null,
    };
    assert!(!is_investor_eligibility_credential(&vc));
}

#[test]
fn credential_issuance_date_is_rfc3339() {
    let mock = MockIndyClient::new();
    let vc = mock.assemble_credential("did:indy:i", serde_json::Value::Null, serde_json::Value::Null, [7; 16]);
    let d: Vec<char> = vc.issuance_date.chars().collect();
    assert_eq!(d.len(), "2024-01-01T00:00:00+00:00".len());
    assert_eq!((d[4], d[7], d[10], d[13], d[16]), ('-', '-', 'T', ':', ':'));
    assert!(vc.issuance_date.ends_with("+00:00"));
    assert!(vc.issuance_date.as_str() >= "2024");
}

#[test]
fn configs_and_credentials_clone_equal() {
    let wallet = IndyWalletConfig {
        wallet_name: "w".to_string(),
        wallet_key: "k".to_string(),
        wallet_path: Some(std::path::PathBuf::from("/tmp/w")),
    };
    let copy = wallet.clone();
    assert_eq!(copy.wallet_path, wallet.wallet_path);
    let ledger = IndyLedgerConfig {
        genesis_file: std::path::PathBuf::from("genesis.txn"),
        pool_name: "indy-pool".to_string(),
    };
    assert_eq!(ledger.clone().genesis_file, ledger.genesis_file);
    let vc = MockIndyClient::new().assemble_credential(
        "did:indy:i",
        serde_json::Value::Bool(true),
        serde_json::Value::Null,
        [1; 16],
    );
    let c = vc.clone();
    assert_eq!(c.credential_subject, vc.credential_subject);
    assert_eq!(c.id, vc.id);
}

#[test]
fn package_identity() {
    assert_eq!(VERSION, "0.1.0");
    assert_eq!(PROJECT_NAME, "islamic_shariah_validator");
    assert!(REPOSITORY.starts_with("https://"));
}

#[test]
fn did_is_built_from_the_random_bytes() {
    let mock = MockIndyClient::new();
    let bytes = [
        0x12, 0x34, 0x56, 0x78, 0x9a, 0xbc, 0xde, 0xf0, 0x12, 0x34, 0x56, 0x78, 0x9a, 0xbc, 0xde,
        0xf0,
    ];
    let did = mock.create_did(None, bytes).unwrap();
    assert_eq!(did.did, "did:indy:12345678-9abc-4ef0-9234-56789abcdef0");
    assert_eq!(did.verkey, "verkey_did:indy:12345678-9abc-4ef0-9234-56789abcdef0");
}

#[test]
fn credential_at_a_given_time() {
    let mock = MockIndyClient::new();
    let vc = mock.assemble_credential_at(
        "did:indy:i",
        serde_json::Value::Null,
        serde_json::Value::Null,
        [0xab; 16],
        1_431_648_000,
    );
    assert_eq!(vc.issuance_date, "2015-05-15T00:00:00+00:00");
    assert_eq!(vc.id.as_deref(), Some("cred:abababab-abab-4bab-abab-abababababab"));
    let epoch = mock.assemble_credential_at("i", serde_json::Value::Null, serde_json::Value::Null, [0; 16], 0);
    assert_eq!(epoch.issuance_date, "1970-01-01T00:00:00+00:00");
    let far = mock.assemble_credential_at("i", serde_json::Value::Null, serde_json::Value::Null, [0; 16], u64::MAX);
    assert_eq!(far.issuance_date, "9999-12-31T23:59:59+00:00");
}
