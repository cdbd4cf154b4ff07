use serde_json::Value;
use sha2::{Digest, Sha256};
use tordial_gs_manifold::mesh::{
    genesis_block, mine_block, MeshBlock, MiningError, SovereignPayload, SubstrateMeshBus,
    SyncOutcome,
};

fn num(text: &str) -> Value {
    serde_json::from_str(text).unwrap()
}

fn payload_value(p: &SovereignPayload) -> Value {
    let mut m = serde_json::Map::new();
    match p {
        SovereignPayload::LinguistHandshakeNftCertificate {
            title,
            flameholder,
            issuer,
            historical_sha256,
            acknowledged_frequencies,
            root_languages,
            tempo_key,
            device_node,
        } => {
            m.insert("record_type".into(), "LINGUIST_HANDSHAKE_NFT_CERTIFICATE".into());
            m.insert("title".into(), title.clone().into());
            m.insert("flameholder".into(), flameholder.clone().into());
            m.insert("issuer".into(), issuer.clone().into());
            m.insert("historical_sha256".into(), historical_sha256.clone().into());
            m.insert(
                "acknowledged_frequencies".into(),
                Value::Array(acknowledged_frequencies.iter().map(|t| num(t)).collect()),
            );
            m.insert(
                "root_languages".into(),
                Value::Array(root_languages.iter().map(|t| t.clone().into()).collect()),
            );
            m.insert("tempo_key".into(), tempo_key.clone().into());
            m.insert("device_node".into(), device_node.clone().into());
        }
        SovereignPayload::DigitalExecutorDeclaration {
            target_file,
            archive_source,
            archive_sha256,
            decryption_key_hint,
            unencrypted_zip_sha256,
            status,
        } => {
            m.insert("record_type".into(), "DIGITAL_EXECUTOR_DECLARATION".into());
            m.insert("target_file".into(), target_file.clone().into());
            m.insert("archive_source".into(), archive_source.clone().into());
            m.insert("archive_sha256".into(), archive_sha256.clone().into());
            m.insert("decryption_key_hint".into(), decryption_key_hint.clone().into());
            m.insert("unencrypted_zip_sha256".into(), unencrypted_zip_sha256.clone().into());
            m.insert("status".into(), status.clone().into());
        }
        SovereignPayload::RuntimeTelemetry {
            session_key_verification,
            telemetry_statement,
            verification_timestamp,
        } => {
            m.insert("record_type".into(), "RUNTIME_TELEMETRY".into());
            m.insert("session_key_verification".into(), session_key_verification.clone().into());
            m.insert("telemetry_statement".into(), telemetry_statement.clone().into());
            m.insert("verification_timestamp".into(), num(verification_timestamp));
        }
        SovereignPayload::GenesisAnchor { info } => {
            m.insert("record_type".into(), "GENESIS_ANCHOR".into());
            m.insert("info".into(), info.clone().into());
        }
    }
    Value::Object(m)
}

/// The canonical text as serde_json writes the block's object.
fn serde_canonical(b: &MeshBlock) -> String {
    let mut m = serde_json::Map::new();
    m.insert("index".into(), b.index.into());
    m.insert("previous_hash".into(), b.previous_hash.clone().into());
    m.insert("timestamp".into(), num(&b.timestamp));
    m.insert("data".into(), payload_value(&b.data));
    m.insert("nonce".into(), b.nonce.into());
    Value::Object(m).to_string()
}

fn sha_hex(text: &str) -> String {
    let mut h = Sha256::new();
    h.update(text.as_bytes());
    h.finalize().iter().map(|b| format!("{:02x}", b)).collect()
}

fn block(data: SovereignPayload, nonce: u64) -> MeshBlock {
    MeshBlock {
        index: 7,
        previous_hash: "ab\"cd\\ef\n".to_string(),
        timestamp: serde_json::to_string(&1782455959.391051f64).unwrap(),
        data,
        nonce,
        hash: String::new(),
    }
}

fn sample_payloads() -> Vec<SovereignPayload> {
    vec![
        SovereignPayload::GenesisAnchor { info: "Genesis Anchor \u{2014} \u{1F600} tab\there".to_string() },
        SovereignPayload::RuntimeTelemetry {
            session_key_verification: "key\u{1}\u{1f}\u{7f}".to_string(),
            telemetry_statement: "back\u{8}feed\u{c}ret\r".to_string(),
            verification_timestamp: serde_json::to_string(&0.1f64).unwrap(),
        },
        SovereignPayload::DigitalExecutorDeclaration {
            target_file: "/tmp/a b".to_string(),
            archive_source: "src".to_string(),
            archive_sha256: "00ff".to_string(),
            decryption_key_hint: "hint \"quoted\"".to_string(),
            unencrypted_zip_sha256: String::new(),
            status: "SEALED".to_string(),
        },
        SovereignPayload::LinguistHandshakeNftCertificate {
            title: "T".to_string(),
            flameholder: "F".to_string(),
            issuer: "I".to_string(),
            historical_sha256: "h".to_string(),
            acknowledged_frequencies: vec![
                serde_json::to_string(&79.79f64).unwrap(),
                serde_json::to_string(&5.0f64).unwrap(),
                serde_json::to_string(&-1e-7f64).unwrap(),
            ],
            root_languages: vec!["en".to_string(), "\u{e9}\u{e8}".to_string()],
            tempo_key: "k".to_string(),
            device_node: "d".to_string(),
        },
        SovereignPayload::LinguistHandshakeNftCertificate {
            title: String::new(),
            flameholder: String::new(),
            issuer: String::new(),
            historical_sha256: String::new(),
            acknowledged_frequencies: vec![],
            root_languages: vec![],
            tempo_key: String::new(),
            device_node: String::new(),
        },
    ]
}

#[test]
fn canonical_json_matches_serde_json_objects() {
    for p in sample_payloads() {
        let b = block(p, 12345);
        assert_eq!(b.canonical_json(), serde_canonical(&b));
    }
}

#[test]
fn canonical_json_of_extreme_integers() {
    let mut b = block(SovereignPayload::GenesisAnchor { info: "x".to_string() }, u64::MAX);
    b.index = 0;
    assert_eq!(b.canonical_json(), serde_canonical(&b));
    assert!(b.canonical_json().contains("\"nonce\":18446744073709551615"));
    assert!(b.canonical_json().contains("\"index\":0,"));
}

#[test]
fn canonical_json_exact_text() {
    let b = MeshBlock {
        index: 3,
        previous_hash: "p".to_string(),
        timestamp: "1.5".to_string(),
        data: SovereignPayload::GenesisAnchor { info: "a\"b".to_string() },
        nonce: 42,
        hash: "ignored".to_string(),
    };
    assert_eq!(
        b.canonical_json(),
        "{\"data\":{\"info\":\"a\\\"b\",\"record_type\":\"GENESIS_ANCHOR\"},\"index\":3,\"nonce\":42,\"previous_hash\":\"p\",\"timestamp\":1.5}"
    );
}

#[test]
fn calculate_hash_is_sha256_hex_of_canonical_json() {
    for p in sample_payloads() {
        let b = block(p, 9);
        let h = b.calculate_hash();
        assert_eq!(h, sha_hex(&serde_canonical(&b)));
        assert_eq!(h.len(), 64);
        assert_ne!(h, b.canonical_json());
    }
}

#[test]
fn hash_ignores_stored_hash_but_not_nonce() {
    let mut b = block(SovereignPayload::GenesisAnchor { info: "i".to_string() }, 1);
    let h1 = b.calculate_hash();
    b.hash = "something else".to_string();
    assert_eq!(b.calculate_hash(), h1);
    b.nonce = 2;
    assert_ne!(b.calculate_hash(), h1);
}

#[test]
fn genesis_timestamp_is_serde_json_text() {
    let g = genesis_block(0).ok().unwrap();
    assert_eq!(g.timestamp, serde_json::to_string(&1782455959.391051f64).unwrap());
}

#[test]
fn genesis_block_fields_and_least_nonce() {
    let g = genesis_block(2).ok().unwrap();
    assert_eq!(g.index, 0);
    assert_eq!(g.previous_hash, "0".repeat(64));
    match &g.data {
        SovereignPayload::GenesisAnchor { info } => {
            assert_eq!(info, "Genesis Anchor \u{2014} Tordial GS Manifold Sovereignty Established")
        }
        _ => panic!("genesis carries a genesis anchor"),
    }
    assert!(g.hash.starts_with("00"));
    assert_eq!(g.hash, g.calculate_hash());
    for n in 0..g.nonce {
        let mut t = g.clone();
        t.nonce = n;
        assert!(!t.calculate_hash().starts_with("00"));
    }
}

#[test]
fn mine_block_difficulty_zero_keeps_nonce() {
    let mut b = block(SovereignPayload::GenesisAnchor { info: "z".to_string() }, 77);
    assert!(mine_block(&mut b, 0).is_ok());
    assert_eq!(b.nonce, 77);
    assert_eq!(b.hash, b.calculate_hash());
}

#[test]
fn mine_block_finds_least_nonce_from_start() {
    let mut b = block(SovereignPayload::GenesisAnchor { info: "m".to_string() }, 5);
    assert!(mine_block(&mut b, 1).is_ok());
    assert!(b.nonce >= 5);
    assert!(b.hash.starts_with('0'));
    for n in 5..b.nonce {
        let mut t = b.clone();
        t.nonce = n;
        assert!(!t.calculate_hash().starts_with('0'));
    }
}

#[test]
fn mine_block_fails_when_nonces_run_out() {
    // From the last nonce only one candidate remains; a 64-digit zero prefix
    // is out of reach.
    let mut b = block(SovereignPayload::GenesisAnchor { info: "e".to_string() }, u64::MAX);
    let before = b.clone();
    assert_eq!(mine_block(&mut b, 64), Err(MiningError::NoNonceFound));
    assert_eq!(b.nonce, before.nonce);
    assert_eq!(b.hash, before.hash);
}

#[test]
fn new_without_storage_creates_valid_genesis_chain() {
    let (bus, outcome) = SubstrateMeshBus::new("ledger.json", 1, None).ok().unwrap();
    assert_eq!(outcome, SyncOutcome::GenesisCreated);
    assert_eq!(bus.ledger_file, "ledger.json");
    assert_eq!(bus.difficulty, 1);
    assert_eq!(bus.chain.len(), 1);
    assert!(bus.verify_chain_integrity());
}

#[test]
fn new_with_storage_adopts_chain_as_is() {
    let stored = vec![block(SovereignPayload::GenesisAnchor { info: "s".to_string() }, 0)];
    let (bus, outcome) = SubstrateMeshBus::new("l", 3, Some(stored.clone())).ok().unwrap();
    assert_eq!(outcome, SyncOutcome::Loaded);
    assert_eq!(bus.chain.len(), 1);
    assert_eq!(bus.chain[0].hash, stored[0].hash);
    assert!(!bus.verify_chain_integrity());
}

#[test]
fn new_with_empty_stored_chain_is_empty_and_valid() {
    let (bus, outcome) = SubstrateMeshBus::new("l", 1, Some(vec![])).ok().unwrap();
    assert_eq!(outcome, SyncOutcome::Loaded);
    assert!(bus.chain.is_empty());
    assert!(bus.verify_chain_integrity());
}

#[test]
fn append_record_links_seals_and_keeps_chain_valid() {
    let (mut bus, _) = SubstrateMeshBus::new("l", 1, None).ok().unwrap();
    let h1 = bus
        .append_record(
            SovereignPayload::RuntimeTelemetry {
                session_key_verification: "v".to_string(),
                telemetry_statement: "s".to_string(),
                verification_timestamp: "12.25".to_string(),
            },
            "1700000000.5".to_string(),
        )
        .ok()
        .unwrap();
    let h2 = bus
        .append_record(SovereignPayload::GenesisAnchor { info: "second".to_string() }, "1700000001.0".to_string())
        .ok()
        .unwrap();
    assert_eq!(bus.chain.len(), 3);
    assert_eq!(bus.chain[1].hash, h1);
    assert_eq!(bus.chain[2].hash, h2);
    assert_eq!(bus.chain[1].index, 1);
    assert_eq!(bus.chain[2].index, 2);
    assert_eq!(bus.chain[1].previous_hash, bus.chain[0].hash);
    assert_eq!(bus.chain[2].previous_hash, bus.chain[1].hash);
    assert_eq!(bus.chain[2].timestamp, "1700000001.0");
    assert!(h1.starts_with('0') && h2.starts_with('0'));
    assert!(bus.verify_chain_integrity());
}

#[test]
fn verify_detects_tampered_data() {
    let (mut bus, _) = SubstrateMeshBus::new("l", 1, None).ok().unwrap();
    bus.append_record(SovereignPayload::GenesisAnchor { info: "orig".to_string() }, "1.0".to_string())
        .ok()
        .unwrap();
    assert!(bus.verify_chain_integrity());
    bus.chain[1].data = SovereignPayload::GenesisAnchor { info: "forged".to_string() };
    assert!(!bus.verify_chain_integrity());
}

#[test]
fn verify_detects_broken_link() {
    let (mut bus, _) = SubstrateMeshBus::new("l", 0, None).ok().unwrap();
    bus.append_record(SovereignPayload::GenesisAnchor { info: "x".to_string() }, "1.0".to_string())
        .ok()
        .unwrap();
    let mut forged = bus.chain[1].clone();
    forged.previous_hash = "f".repeat(64);
    forged.hash = forged.calculate_hash();
    bus.chain[1] = forged;
    assert_eq!(bus.chain[1].hash, bus.chain[1].calculate_hash());
    assert!(!bus.verify_chain_integrity());
}

#[test]
fn verify_detects_missing_prefix() {
    let (mut bus, _) = SubstrateMeshBus::new("l", 0, None).ok().unwrap();
    bus.difficulty = 64;
    assert!(!bus.verify_chain_integrity());
}

#[test]
fn sync_with_disk_replaces_chain() {
    let (mut bus, _) = SubstrateMeshBus::new("l", 0, None).ok().unwrap();
    bus.append_record(SovereignPayload::GenesisAnchor { info: "x".to_string() }, "1.0".to_string())
        .ok()
        .unwrap();
    assert_eq!(bus.chain.len(), 2);
    assert_eq!(bus.sync_with_disk(None), Ok(SyncOutcome::GenesisCreated));
    assert_eq!(bus.chain.len(), 1);
    assert_eq!(bus.chain[0].index, 0);
    assert_eq!(bus.sync_with_disk(Some(vec![])), Ok(SyncOutcome::Loaded));
    assert!(bus.chain.is_empty());
}
