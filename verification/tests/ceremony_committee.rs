use zkbtc::ceremony::{
    attempt_compatible, run_ceremony, CeremonyError, KeyGenAttempt, MemberShare,
    EVEN_Y_MARKER, MAX_KEYGEN_ATTEMPTS,
};
use zkbtc::committee::{config_json_string, CommitteeConfig, ConfigError, Member};

fn attempt(leading: u8, num: u16) -> KeyGenAttempt {
    let mut shares = Vec::new();
    let mut i: u16 = 0;
    while i < num {
        shares.push(MemberShare { id: i + 1, package: format!("package-{}", i) });
        i += 1;
    }
    KeyGenAttempt {
        shares,
        pubkey_package: "pubkey-package-json".to_string(),
        pubkey_bytes: vec![leading, 0xab, 0xcd],
    }
}

#[test]
fn compatibility_is_the_even_y_marker() {
    assert!(attempt_compatible(&attempt(2, 1)));
    assert!(!attempt_compatible(&attempt(3, 1)));
    assert_eq!(EVEN_Y_MARKER, 2);
    assert!(MAX_KEYGEN_ATTEMPTS >= 1);
}

#[test]
fn ceremony_emits_even_y_key_after_rejection() {
    // the first draw has odd parity and must be rejected wholesale
    let attempts = vec![attempt(3, 2), attempt(2, 2)];
    let artifacts = run_ceremony(&attempts, 2, 2).unwrap();
    assert_eq!(artifacts.pubkey_bytes[0], EVEN_Y_MARKER);
    assert_eq!(artifacts.key_files.len(), 2);
    assert_eq!(artifacts.config.members.len(), 2);
    assert_eq!(artifacts.config.threshold, 2);
}

#[test]
fn ceremony_with_no_compatible_draw_fails() {
    let attempts = vec![attempt(3, 2), attempt(3, 2)];
    match run_ceremony(&attempts, 2, 1) {
        Err(CeremonyError::NoCompatibleKey) => {},
        other => panic!("expected no compatible key, got {:?}", other.map(|_| ())),
    }
}

#[test]
fn draws_beyond_the_retry_cap_are_not_considered() {
    let mut attempts = Vec::new();
    for _ in 0..MAX_KEYGEN_ATTEMPTS {
        attempts.push(attempt(3, 1));
    }
    attempts.push(attempt(2, 1));
    assert!(matches!(run_ceremony(&attempts, 1, 1), Err(CeremonyError::NoCompatibleKey)));
}

#[test]
fn ceremony_rejects_bad_parameters() {
    let attempts = vec![attempt(2, 3)];
    assert!(matches!(run_ceremony(&attempts, 3, 0), Err(CeremonyError::InvalidParameters)));
    assert!(matches!(run_ceremony(&attempts, 3, 4), Err(CeremonyError::InvalidParameters)));
}

#[test]
fn generate_three_of_two_scenario() {
    // generate(num=3, threshold=2): three key files, one public key
    // file, one committee config with threshold 2 and placeholder
    // addresses ending in 0, 1 and 2
    let attempts = vec![attempt(2, 3)];
    let artifacts = run_ceremony(&attempts, 3, 2).unwrap();

    assert_eq!(artifacts.key_files.len(), 3);
    assert_eq!(artifacts.key_files[0].name, "key-0.json");
    assert_eq!(artifacts.key_files[1].name, "key-1.json");
    assert_eq!(artifacts.key_files[2].name, "key-2.json");
    assert_eq!(artifacts.key_files[0].contents, "package-0");
    assert_eq!(artifacts.key_files[1].contents, "package-1");
    assert_eq!(artifacts.key_files[2].contents, "package-2");

    assert_eq!(artifacts.pubkey_file.name, "publickey-package.json");
    assert_eq!(artifacts.pubkey_file.contents, "pubkey-package-json");

    assert_eq!(artifacts.config.threshold, 2);
    let addrs: Vec<&str> =
        artifacts.config.members.iter().map(|m| m.1.address.as_str()).collect();
    assert_eq!(
        addrs,
        vec!["http://127.0.0.1:8890", "http://127.0.0.1:8891", "http://127.0.0.1:8892"]
    );

    assert_eq!(artifacts.config_file.name, "committee-cfg.json");
    assert_eq!(
        artifacts.config_file.contents,
        "{\"threshold\":2,\"members\":{\
         \"1\":{\"address\":\"http://127.0.0.1:8890\"},\
         \"2\":{\"address\":\"http://127.0.0.1:8891\"},\
         \"3\":{\"address\":\"http://127.0.0.1:8892\"}}}"
    );
}

#[test]
fn zero_threshold_config_is_rejected_at_load() {
    let cfg = CommitteeConfig { threshold: 0, members: Vec::new() };
    assert!(matches!(cfg.validate(), Err(ConfigError::ZeroThreshold)));
    let cfg = CommitteeConfig {
        threshold: 1,
        members: vec![(1, Member { address: "http://127.0.0.1:8890".to_string() })],
    };
    assert!(cfg.validate().is_ok());
}

#[test]
fn config_json_rendering() {
    let cfg = CommitteeConfig {
        threshold: 1,
        members: vec![(7, Member { address: "http://127.0.0.1:8897".to_string() })],
    };
    assert_eq!(
        config_json_string(&cfg).unwrap(),
        "{\"threshold\":1,\"members\":{\"7\":{\"address\":\"http://127.0.0.1:8897\"}}}"
    );
    let bad = CommitteeConfig {
        threshold: 1,
        members: vec![(1, Member { address: "http://\"evil".to_string() })],
    };
    assert!(config_json_string(&bad).is_none());
}
