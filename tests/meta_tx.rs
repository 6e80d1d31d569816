use near_crypto::{KeyType, SecretKey, Signature};
use nominal_registry::{
    create_registration_message, ErrorCode, Event, NameRegistry, Payout, Record, RegisterWithSigParams,
};

const REGISTRY_ID: &str = "registry.near";

fn s(x: &str) -> String {
    x.to_string()
}

fn key(seed: &str) -> SecretKey {
    SecretKey::from_seed(KeyType::ED25519, seed)
}

fn key_text(sk: &SecretKey) -> String {
    sk.public_key().to_string()
}

fn sign(sk: &SecretKey, p: &RegisterWithSigParams) -> String {
    let hash = near_sdk::env::sha256(&create_registration_message(REGISTRY_ID, p));
    let sig = match sk.sign(&hash) {
        Signature::ED25519(sig) => sig.to_bytes().to_vec(),
        _ => unreachable!(),
    };
    format!(
        "{}:{}",
        bs58::encode(&sig).into_string(),
        bs58::encode(sk.public_key().key_data()).into_string()
    )
}

fn params(name: &str, owner: &str, relayer: &str, nonce: u64) -> RegisterWithSigParams {
    RegisterWithSigParams {
        name: s(name),
        owner: s(owner),
        relayer: s(relayer),
        currency: None,
        amount: 1000,
        deadline: 1000,
        nonce,
    }
}

/// A registry with a native fee of 1000, the default 5% referrer rate, and
/// `alice-acct` having authorized the key of seed `alice`.
fn setup() -> (NameRegistry, SecretKey) {
    let mut reg = NameRegistry::new(s("admin.near"), s("treasury.near"), 1000);
    let sk = key("alice");
    reg.authorize_key(&s("alice-acct"), key_text(&sk)).ok().unwrap();
    (reg, sk)
}

#[test]
fn meta_tx_native_registration_scenario() {
    let (mut reg, sk) = setup();
    let relayer = s("R");
    let p = params("alice", "alice-acct", "R", 0);
    let sig = sign(&sk, &p);
    let fx = reg.register_with_sig(&relayer, p, sig, 1000, 500, &s(REGISTRY_ID)).ok().unwrap();
    assert_eq!(
        reg.get_record("alice"),
        Some(Record { owner: s("alice-acct"), resolved: s("alice-acct"), updated_at: 500 })
    );
    assert_eq!(reg.get_nonce("alice"), 1);
    assert_eq!(reg.get_primary_name("alice-acct"), Some(s("alice")));
    assert_eq!(
        fx.payouts,
        vec![
            Payout { asset: None, from: relayer.clone(), to: s("treasury.near"), amount: 950 },
            Payout { asset: None, from: relayer.clone(), to: relayer.clone(), amount: 50 },
        ]
    );
    assert_eq!(
        fx.events,
        vec![
            Event::PrimaryNameSet { owner: s("alice-acct"), name: s("alice") },
            Event::Registered { name: s("alice"), owner: s("alice-acct"), payer: relayer.clone(), amount: 1000 },
            Event::FeePaid {
                name: s("alice"),
                payer: relayer.clone(),
                currency: None,
                total: 1000,
                referrer: Some(relayer.clone()),
                referrer_amount: 50,
                treasury_amount: 950,
            },
        ]
    );
}

#[test]
fn meta_tx_replay_rejected_with_invalid_nonce() {
    let (mut reg, sk) = setup();
    let relayer = s("R");
    let p = params("alice", "alice-acct", "R", 0);
    let sig = sign(&sk, &p);
    reg.register_with_sig(&relayer, p.clone(), sig.clone(), 1000, 500, &s(REGISTRY_ID)).ok().unwrap();
    let again = reg.register_with_sig(&relayer, p, sig, 1000, 501, &s(REGISTRY_ID));
    assert_eq!(again.err(), Some(ErrorCode::InvalidNonce));
    assert_eq!(reg.get_nonce("alice"), 1);
    assert_eq!(reg.get_record("alice").unwrap().updated_at, 500);
}

#[test]
fn verify_meta_tx_counts_acceptances() {
    let (mut reg, sk) = setup();
    let relayer = s("R");
    let reg_id = s(REGISTRY_ID);
    for k in 0..3u64 {
        let p = params("alice", "alice-acct", "R", k);
        let sig = sign(&sk, &p);
        assert_eq!(reg.verify_meta_tx(&relayer, &p, &sig, 10, &reg_id), Ok(()));
        assert_eq!(reg.verify_meta_tx(&relayer, &p, &sig, 10, &reg_id), Err(ErrorCode::InvalidNonce));
        assert_eq!(reg.get_nonce("alice"), k + 1);
    }
    assert_eq!(reg.get_nonce("other"), 0);
    // a request with a bad signature does not advance the counter
    let p = params("alice", "alice-acct", "R", 3);
    assert_eq!(
        reg.verify_meta_tx(&relayer, &p, &s("abc"), 10, &reg_id),
        Err(ErrorCode::InvalidSignature)
    );
    assert_eq!(reg.get_nonce("alice"), 3);
}

#[test]
fn meta_tx_wrong_nonce_changes_nothing() {
    let (mut reg, sk) = setup();
    let p = params("alice", "alice-acct", "R", 1);
    let sig = sign(&sk, &p);
    let r = reg.register_with_sig(&s("R"), p, sig, 1000, 500, &s(REGISTRY_ID));
    assert_eq!(r.err(), Some(ErrorCode::InvalidNonce));
    assert_eq!(reg.get_nonce("alice"), 0);
    assert_eq!(reg.get_record("alice"), None);
}

#[test]
fn meta_tx_fee_mismatch_keeps_nonce() {
    let (mut reg, sk) = setup();
    let p = params("alice", "alice-acct", "R", 0);
    let sig = sign(&sk, &p);
    let r = reg.register_with_sig(&s("R"), p, sig, 999, 500, &s(REGISTRY_ID));
    assert_eq!(r.err(), Some(ErrorCode::InsufficientFee));
    assert_eq!(reg.get_nonce("alice"), 0);
    assert_eq!(reg.get_record("alice"), None);
}

#[test]
fn meta_tx_deadline_and_relayer_checks() {
    let (mut reg, sk) = setup();
    let p = params("alice", "alice-acct", "R", 0);
    let sig = sign(&sk, &p);
    let id = s(REGISTRY_ID);
    assert_eq!(
        reg.register_with_sig(&s("R"), p.clone(), sig.clone(), 1000, 1001, &id).err(),
        Some(ErrorCode::DeadlineExpired)
    );
    assert_eq!(
        reg.register_with_sig(&s("mallory"), p.clone(), sig.clone(), 1000, 5, &id).err(),
        Some(ErrorCode::Unauthorized)
    );
    reg.set_require_relayer_allowlist(&s("admin.near"), true).ok().unwrap();
    assert_eq!(
        reg.register_with_sig(&s("R"), p.clone(), sig.clone(), 1000, 5, &id).err(),
        Some(ErrorCode::Unauthorized)
    );
    reg.set_relayer(&s("admin.near"), s("R"), true).ok().unwrap();
    // the deadline itself is still in time
    assert!(reg.register_with_sig(&s("R"), p, sig, 1000, 1000, &id).is_ok());
}

#[test]
fn meta_tx_signature_failures() {
    let (mut reg, sk) = setup();
    let id = s(REGISTRY_ID);
    let p = params("alice", "alice-acct", "R", 0);
    // signed over other values
    let mut other = p.clone();
    other.amount = 1;
    let wrong = sign(&sk, &other);
    assert_eq!(
        reg.register_with_sig(&s("R"), p.clone(), wrong, 1000, 5, &id).err(),
        Some(ErrorCode::InvalidSignature)
    );
    // bound to another registry
    let hash = near_sdk::env::sha256(&create_registration_message("elsewhere.near", &p));
    let sig_bytes = match sk.sign(&hash) {
        Signature::ED25519(sig) => sig.to_bytes().to_vec(),
        _ => unreachable!(),
    };
    let foreign = format!(
        "{}:{}",
        bs58::encode(&sig_bytes).into_string(),
        bs58::encode(sk.public_key().key_data()).into_string()
    );
    assert_eq!(
        reg.register_with_sig(&s("R"), p.clone(), foreign, 1000, 5, &id).err(),
        Some(ErrorCode::InvalidSignature)
    );
    for bad in ["", "nocolon", "a:b:c", "0OIl:abc", "abc:0OIl"] {
        assert_eq!(
            reg.register_with_sig(&s("R"), p.clone(), s(bad), 1000, 5, &id).err(),
            Some(ErrorCode::InvalidSignature)
        );
    }
    let good = sign(&sk, &p);
    let short = format!("{}:{}", bs58::encode(&[1u8; 63]).into_string(), good.split(':').nth(1).unwrap());
    assert_eq!(
        reg.register_with_sig(&s("R"), p.clone(), short, 1000, 5, &id).err(),
        Some(ErrorCode::InvalidSignature)
    );
    assert_eq!(reg.get_nonce("alice"), 0);
    assert!(reg.register_with_sig(&s("R"), p, good, 1000, 5, &id).is_ok());
}

#[test]
fn meta_tx_key_authorization() {
    let (mut reg, _) = setup();
    let id = s(REGISTRY_ID);
    let stranger = key("stranger");
    let p = params("alice", "alice-acct", "R", 0);
    let sig = sign(&stranger, &p);
    assert_eq!(
        reg.register_with_sig(&s("R"), p.clone(), sig.clone(), 1000, 5, &id).err(),
        Some(ErrorCode::KeyNotAuthorized)
    );
    // authorized by someone else: still not allowed for alice-acct
    reg.authorize_key(&s("bob-acct"), key_text(&stranger)).ok().unwrap();
    assert_eq!(
        reg.register_with_sig(&s("R"), p.clone(), sig.clone(), 1000, 5, &id).err(),
        Some(ErrorCode::KeyNotAuthorized)
    );
    reg.authorize_key(&s("alice-acct"), key_text(&stranger)).ok().unwrap();
    assert!(reg.register_with_sig(&s("R"), p, sig, 1000, 5, &id).is_ok());
}

#[test]
fn meta_tx_revoked_key_refused() {
    let (mut reg, sk) = setup();
    reg.revoke_key(&s("alice-acct"), key_text(&sk)).ok().unwrap();
    let p = params("alice", "alice-acct", "R", 0);
    let sig = sign(&sk, &p);
    assert_eq!(
        reg.register_with_sig(&s("R"), p, sig, 1000, 5, &s(REGISTRY_ID)).err(),
        Some(ErrorCode::KeyNotAuthorized)
    );
}

#[test]
fn authorize_key_rejects_unparsable_key() {
    let (mut reg, _) = setup();
    assert_eq!(reg.authorize_key(&s("x"), s("ed25519:0OIl")).err(), Some(ErrorCode::InvalidPublicKey));
    assert_eq!(reg.revoke_key(&s("x"), s("nonsense:abc")).err(), Some(ErrorCode::InvalidPublicKey));
}

#[test]
fn meta_tx_implicit_account_owner() {
    let mut reg = NameRegistry::new(s("admin.near"), s("treasury.near"), 1000);
    let sk = key("implicit");
    let owner = hex::encode(sk.public_key().key_data());
    let p = params("implicit", &owner, "R", 0);
    let sig = sign(&sk, &p);
    let fx = reg.register_with_sig(&s("R"), p, sig, 1000, 5, &s(REGISTRY_ID)).ok().unwrap();
    assert_eq!(fx.payouts.len(), 2);
    assert_eq!(reg.get_record("implicit").unwrap().owner, owner);

    // an implicit account named after another key
    let other = key("other");
    let q = params("implicit2", &owner, "R", 0);
    let sig = sign(&other, &q);
    assert_eq!(
        reg.register_with_sig(&s("R"), q, sig, 1000, 5, &s(REGISTRY_ID)).err(),
        Some(ErrorCode::KeyNotAuthorized)
    );
}

#[test]
fn meta_tx_empty_owner_refused() {
    let (mut reg, sk) = setup();
    let p = params("alice", "", "R", 0);
    let sig = sign(&sk, &p);
    assert_eq!(
        reg.register_with_sig(&s("R"), p, sig, 1000, 5, &s(REGISTRY_ID)).err(),
        Some(ErrorCode::InvalidAccount)
    );
}

#[test]
fn meta_tx_asset_path_reserves_and_commits() {
    let (mut reg, sk) = setup();
    reg.set_coin_fee(&s("admin.near"), s("usdc.near"), 40).ok().unwrap();
    let relayer = s("R");
    let mut p = params("alice", "alice-acct", "R", 0);
    p.currency = Some(s("usdc.near"));
    p.amount = 40;
    let sig = sign(&sk, &p);
    let fx = reg.register_with_sig(&relayer, p, sig, 0, 5, &s(REGISTRY_ID)).ok().unwrap();
    assert_eq!(
        fx.payouts,
        vec![
            Payout { asset: Some(s("usdc.near")), from: relayer.clone(), to: s("treasury.near"), amount: 38 },
            Payout { asset: Some(s("usdc.near")), from: relayer.clone(), to: relayer.clone(), amount: 2 },
        ]
    );
    assert!(fx.events.is_empty());
    assert_eq!(reg.get_nonce("alice"), 1);
    assert_eq!(reg.get_record("alice"), None);

    let done = reg.ft_transfer_callback(s("alice"), true).ok().unwrap();
    assert_eq!(
        reg.get_record("alice"),
        Some(Record { owner: s("alice-acct"), resolved: s("alice-acct"), updated_at: 5 })
    );
    assert_eq!(
        done.events[2],
        Event::FeePaid {
            name: s("alice"),
            payer: relayer.clone(),
            currency: Some(s("usdc.near")),
            total: 40,
            referrer: Some(relayer.clone()),
            referrer_amount: 2,
            treasury_amount: 38,
        }
    );
}

#[test]
fn meta_tx_asset_path_failure_and_rejections() {
    let (mut reg, sk) = setup();
    reg.set_coin_fee(&s("admin.near"), s("usdc.near"), 40).ok().unwrap();
    let id = s(REGISTRY_ID);
    let mut p = params("alice", "alice-acct", "R", 0);
    p.currency = Some(s("dai.near"));
    p.amount = 40;
    let sig = sign(&sk, &p);
    assert_eq!(
        reg.register_with_sig(&s("R"), p.clone(), sig, 0, 5, &id).err(),
        Some(ErrorCode::AssetNotAccepted)
    );
    p.currency = Some(s("usdc.near"));
    p.amount = 39;
    let sig = sign(&sk, &p);
    assert_eq!(
        reg.register_with_sig(&s("R"), p.clone(), sig, 0, 5, &id).err(),
        Some(ErrorCode::InsufficientFee)
    );
    p.amount = 40;
    let sig = sign(&sk, &p);
    assert_eq!(
        reg.register_with_sig(&s("R"), p.clone(), sig.clone(), 7, 5, &id).err(),
        Some(ErrorCode::NativeDepositNotAllowed)
    );
    assert_eq!(reg.get_nonce("alice"), 0);
    reg.register_with_sig(&s("R"), p, sig, 0, 5, &id).ok().unwrap();
    assert_eq!(reg.ft_transfer_callback(s("alice"), false).err(), Some(ErrorCode::PaymentFailed));
    assert_eq!(reg.get_record("alice"), None);
    assert_eq!(reg.get_primary_name("alice-acct"), None);
    // the nonce stays consumed: a retry needs a fresh one
    assert_eq!(reg.get_nonce("alice"), 1);
}

#[test]
fn meta_tx_implicit_owner_with_authorized_key() {
    let mut reg = NameRegistry::new(s("admin.near"), s("treasury.near"), 1000);
    let own = key("implicit");
    let owner = hex::encode(own.public_key().key_data());
    let delegate = key("delegate");
    reg.authorize_key(&owner, key_text(&delegate)).ok().unwrap();
    let p = params("delegated", &owner, "R", 0);
    let sig = sign(&delegate, &p);
    assert!(reg.register_with_sig(&s("R"), p, sig, 1000, 5, &s(REGISTRY_ID)).is_ok());
    assert_eq!(reg.get_record("delegated").unwrap().owner, owner);
}
