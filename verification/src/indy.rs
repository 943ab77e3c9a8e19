//! Hyperledger Indy: wallets, decentralised identifiers (DIDs) and
//! verifiable credentials of investor eligibility.
use std::collections::HashMap;
use std::path::PathBuf;
use vstd::prelude::*;

use crate::clock::{capped_secs, rfc3339_of_unix_secs, rfc3339_text_at, unix_time_now};
use crate::text::digit;

verus! {

/// `std::path::PathBuf`, carried through as it is.
#[verifier::external_type_specification]
#[verifier::external_body]
pub struct ExPathBuf(PathBuf);

/// `serde_json::Value`, a JSON document carried through as it is.
#[verifier::external_type_specification]
#[verifier::external_body]
pub struct ExJsonValue(serde_json::Value);

/// `PathBuf::clone`: a copy of the path, equal to it.
pub assume_specification[ <PathBuf as Clone>::clone ](path: &PathBuf) -> (copy: PathBuf)
    ensures
        copy == *path,
;

/// `serde_json::Value::clone`: a deep copy of the document, equal to it.
pub assume_specification[ <serde_json::Value as Clone>::clone ](value: &serde_json::Value) -> (copy: serde_json::Value)
    ensures
        copy == *value,
;

/// Errors of the Indy layer.
#[derive(Debug)]
pub enum IndyError {
    WalletError(String),
    DIDError(String),
    CredentialError(String),
    LedgerError(String),
    SerializationError(String),
    Unknown(String),
}

/// Configuration of an Indy wallet.
#[derive(Debug, Clone)]
pub struct IndyWalletConfig {
    pub wallet_name: String,
    /// Key that encrypts the wallet.
    pub wallet_key: String,
    pub wallet_path: Option<PathBuf>,
}

/// Configuration of an Indy ledger.
#[derive(Debug, Clone)]
pub struct IndyLedgerConfig {
    /// The pool's genesis transactions file.
    pub genesis_file: PathBuf,
    /// Name of the pool (such as `indy-pool`).
    pub pool_name: String,
}

/// A DID with its verification key.
#[derive(Debug, Clone)]
pub struct IndyDID {
    pub did: String,
    pub verkey: String,
    pub seed: Option<String>,
    /// Ledger role (`TRUST_ANCHOR`, `ENDORSER`, ...).
    pub role: Option<String>,
}

/// A W3C verifiable credential.
#[derive(Debug, Clone)]
pub struct VerifiableCredential {
    pub context: Vec<String>,
    pub id: Option<String>,
    /// The credential's types (`type` in its JSON form).
    pub type_: Vec<String>,
    pub issuer: String,
    pub issuance_date: String,
    pub credential_subject: serde_json::Value,
    pub proof: serde_json::Value,
}

pub const DID_PREFIX: &'static str = "did:indy:";
pub const VERKEY_PREFIX: &'static str = "verkey_";
pub const CREDENTIAL_ID_PREFIX: &'static str = "cred:";
pub const W3C_CREDENTIALS_CONTEXT: &'static str = "https://www.w3.org/2018/credentials/v1";
pub const VERIFIABLE_CREDENTIAL_TYPE: &'static str = "VerifiableCredential";
pub const INVESTOR_ELIGIBILITY_TYPE: &'static str = "InvestorEligibility";
/// Schema of the investor eligibility credentials.
pub const INVESTOR_SCHEMA_ID: &'static str = "InvestorEligibilitySchema:v1";

/// The lowercase hexadecimal digit of `n` (0 to 15).
pub open spec fn hex_digit(n: int) -> char {
    if n < 10 {
        digit(n)
    } else if n == 10 {
        'a'
    } else if n == 11 {
        'b'
    } else if n == 12 {
        'c'
    } else if n == 13 {
        'd'
    } else if n == 14 {
        'e'
    } else {
        'f'
    }
}

/// The bytes in lowercase hexadecimal, two digits each, high digit first.
pub open spec fn hex_text(bytes: Seq<u8>) -> Seq<char>
    decreases bytes.len(),
{
    if bytes.len() == 0 {
        seq![]
    } else {
        seq![hex_digit((bytes[0] / 16) as int), hex_digit((bytes[0] % 16) as int)] + hex_text(bytes.drop_first())
    }
}

/// Sixteen random bytes made into a version 4 UUID of the RFC 4122 variant:
/// the high digit of byte 6 becomes 4, the two high bits of byte 8 become 10.
pub open spec fn v4_bytes(random: Seq<u8>) -> Seq<u8> {
    random.update(6, (random[6] % 16 + 0x40) as u8).update(8, (random[8] % 64 + 0x80) as u8)
}

/// The hyphenated lowercase text of a UUID's 16 bytes:
/// `xxxxxxxx-xxxx-xxxx-xxxx-xxxxxxxxxxxx`.
pub open spec fn uuid_text(bytes: Seq<u8>) -> Seq<char> {
    hex_text(bytes.subrange(0, 4)) + seq!['-'] + hex_text(bytes.subrange(4, 6)) + seq!['-']
        + hex_text(bytes.subrange(6, 8)) + seq!['-'] + hex_text(bytes.subrange(8, 10)) + seq!['-']
        + hex_text(bytes.subrange(10, 16))
}

/// Calls `uuid::Builder::from_random_bytes(random_bytes).into_uuid()` and
/// renders the UUID with `to_string()`: the builder sets the version and
/// variant bits (see [`v4_bytes`]) and `Display` writes the hyphenated
/// lowercase form (see [`uuid_text`]).
#[verifier::external_body]
fn uuid_v4_text(random_bytes: [u8; 16]) -> (s: String)
    ensures
        s@ == uuid_text(v4_bytes(random_bytes@)),
{
    uuid::Builder::from_random_bytes(random_bytes).into_uuid().to_string()
}

/// `vc` is the investor eligibility credential issued by `issuer` at
/// `issued_at` (Unix seconds) with the given subject and proof, identified by
/// the UUID made of the random bytes.
pub open spec fn is_investor_credential(
    vc: VerifiableCredential,
    issuer: Seq<char>,
    subject: serde_json::Value,
    proof: serde_json::Value,
    random: Seq<u8>,
    issued_at: int,
) -> bool {
    &&& vc.context@.len() == 1
    &&& vc.context@[0]@ == W3C_CREDENTIALS_CONTEXT@
    &&& vc.id matches Some(id) && id@ == CREDENTIAL_ID_PREFIX@ + uuid_text(v4_bytes(random))
    &&& vc.type_@.len() == 2
    &&& vc.type_@[0]@ == VERIFIABLE_CREDENTIAL_TYPE@
    &&& vc.type_@[1]@ == INVESTOR_ELIGIBILITY_TYPE@
    &&& vc.issuer@ == issuer
    &&& vc.issuance_date@ == rfc3339_of_unix_secs(capped_secs(issued_at))
    &&& vc.credential_subject == subject
    &&& vc.proof == proof
}

/// The text of an optional seed, as an owned string.
pub open spec fn seed_kept(given: Option<&str>, kept: Option<String>) -> bool {
    match given {
        Some(s) => kept matches Some(k) && k@ == s@,
        None => kept is None,
    }
}

/// One of the types reads `t`.
pub open spec fn has_type(types: Seq<String>, t: Seq<char>) -> bool {
    exists|k: int| 0 <= k < types.len() && (#[trigger] types[k])@ == t
}

/// Whether a credential is of the `InvestorEligibility` type, the test made
/// before its proof is verified.
pub fn is_investor_eligibility_credential(credential: &VerifiableCredential) -> (r: bool)
    ensures
        r == has_type(credential.type_@, INVESTOR_ELIGIBILITY_TYPE@),
{
    let wanted = String::from_str(INVESTOR_ELIGIBILITY_TYPE);
    let n = credential.type_.len();
    let mut k: usize = 0;
    while k < n
        invariant
            n == credential.type_@.len(),
            k <= n,
            wanted@ == INVESTOR_ELIGIBILITY_TYPE@,
            forall|j: int| 0 <= j < k ==> (#[trigger] credential.type_@[j])@ != INVESTOR_ELIGIBILITY_TYPE@,
        decreases n - k,
    {
        if credential.type_[k] == wanted {
            return true;
        }
        k = k + 1;
    }
    false
}

/// An Indy client that keeps everything in memory, for tests and for use
/// without a ledger.
pub struct MockIndyClient {
    dids: HashMap<String, IndyDID>,
    credentials: Vec<VerifiableCredential>,
}

impl MockIndyClient {
    /// The DIDs the client stores.
    pub closed spec fn stored_dids(self) -> Map<String, IndyDID> {
        self.dids@
    }

    /// The credentials the client stores.
    pub closed spec fn stored_credentials(self) -> Seq<VerifiableCredential> {
        self.credentials@
    }

    /// A client that stores nothing.
    pub fn new() -> (client: Self)
        ensures
            client.stored_dids() == Map::<String, IndyDID>::empty(),
            client.stored_credentials() == Seq::<VerifiableCredential>::empty(),
    {
        MockIndyClient { dids: HashMap::new(), credentials: Vec::new() }
    }

    /// A new DID `did:indy:<uuid>`, the UUID made of the 16 random bytes
    /// given, with the verification key `verkey_<did>`, the given seed and no
    /// role.
    pub fn create_did(&self, seed: Option<&str>, random_bytes: [u8; 16]) -> (r: Result<IndyDID, IndyError>)
        ensures
            r matches Ok(d) && {
                &&& d.did@ == DID_PREFIX@ + uuid_text(v4_bytes(random_bytes@))
                &&& d.verkey@ == VERKEY_PREFIX@ + d.did@
                &&& seed_kept(seed, d.seed)
                &&& d.role is None
            },
    {
        let u = uuid_v4_text(random_bytes);
        let mut did = String::from_str(DID_PREFIX);
        did.append(u.as_str());
        let mut verkey = String::from_str(VERKEY_PREFIX);
        verkey.append(did.as_str());
        let kept = match seed {
            Some(s) => Some(String::from_str(s)),
            None => None,
        };
        Ok(IndyDID { did, verkey, seed: kept, role: None })
    }

    /// The investor eligibility credential issued by `issuer_did` at
    /// `issued_at` (Unix seconds), with the given subject and proof: the W3C
    /// credentials context, the types `VerifiableCredential` and
    /// `InvestorEligibility`, the identifier `cred:<uuid>` for the UUID made
    /// of the 16 random bytes given, and the RFC 3339 text of `issued_at` as
    /// issuance date.
    pub fn assemble_credential_at(
        &self,
        issuer_did: &str,
        credential_subject: serde_json::Value,
        proof: serde_json::Value,
        random_bytes: [u8; 16],
        issued_at: u64,
    ) -> (vc: VerifiableCredential)
        ensures
            is_investor_credential(vc, issuer_did@, credential_subject, proof, random_bytes@, issued_at as int),
    {
        let u = uuid_v4_text(random_bytes);
        let mut id = String::from_str(CREDENTIAL_ID_PREFIX);
        id.append(u.as_str());
        let mut context: Vec<String> = Vec::new();
        context.push(String::from_str(W3C_CREDENTIALS_CONTEXT));
        let mut type_: Vec<String> = Vec::new();
        type_.push(String::from_str(VERIFIABLE_CREDENTIAL_TYPE));
        type_.push(String::from_str(INVESTOR_ELIGIBILITY_TYPE));
        VerifiableCredential {
            context,
            id: Some(id),
            type_,
            issuer: String::from_str(issuer_did),
            issuance_date: rfc3339_text_at(issued_at),
            credential_subject,
            proof,
        }
    }

    /// The investor eligibility credential issued by `issuer_did` at the
    /// present time of the machine's clock (see [`Self::assemble_credential_at`]).
    pub fn assemble_credential(
        &self,
        issuer_did: &str,
        credential_subject: serde_json::Value,
        proof: serde_json::Value,
        random_bytes: [u8; 16],
    ) -> (vc: VerifiableCredential)
        ensures
            exists|issued_at: u64|
                #[trigger] is_investor_credential(
                    vc,
                    issuer_did@,
                    credential_subject,
                    proof,
                    random_bytes@,
                    issued_at as int,
                ),
    {
        let issued_at = unix_time_now();
        let vc = self.assemble_credential_at(issuer_did, credential_subject, proof, random_bytes, issued_at);
        assert(is_investor_credential(vc, issuer_did@, credential_subject, proof, random_bytes@, issued_at as int));
        vc
    }
}

} // verus!
