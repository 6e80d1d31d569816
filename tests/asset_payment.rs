use nominal_registry::{ErrorCode, Event, NameRegistry, Payout, Record};

fn s(x: &str) -> String {
    x.to_string()
}

fn registry_with_usdc() -> NameRegistry {
    let mut reg = NameRegistry::new(s("admin.near"), s("treasury.near"), 1000);
    reg.set_coin_fee(&s("admin.near"), s("usdc.near"), 25).ok().unwrap();
    reg
}

#[test]
fn asset_not_accepted_before_any_transfer() {
    let mut reg = registry_with_usdc();
    let alice = s("alice.near");
    let r = reg.register_with_ft(&alice, s("alice"), s("dai.near"), 0, 1);
    assert_eq!(r.err(), Some(ErrorCode::AssetNotAccepted));
    assert_eq!(reg.get_record("alice"), None);
    // the name stays free: a native registration can still take it
    assert!(reg.register(&alice, s("alice"), 1000, 2).is_ok());
}

#[test]
fn asset_path_other_rejections() {
    let mut reg = registry_with_usdc();
    let alice = s("alice.near");
    assert_eq!(
        reg.register_with_ft(&alice, s("alice"), s("usdc.near"), 1, 1).err(),
        Some(ErrorCode::NativeDepositNotAllowed)
    );
    assert_eq!(
        reg.register_with_ft(&alice, s("-bad"), s("usdc.near"), 0, 1).err(),
        Some(ErrorCode::InvalidName)
    );
    reg.register(&alice, s("taken"), 1000, 1).ok().unwrap();
    assert_eq!(
        reg.register_with_ft(&alice, s("taken"), s("usdc.near"), 0, 1).err(),
        Some(ErrorCode::NameTaken)
    );
}

#[test]
fn asset_payment_reserves_then_commits() {
    let mut reg = registry_with_usdc();
    let alice = s("alice.near");
    let fx = reg.register_with_ft(&alice, s("alice"), s("usdc.near"), 0, 11).ok().unwrap();
    assert_eq!(
        fx.payouts,
        vec![Payout { asset: Some(s("usdc.near")), from: alice.clone(), to: s("treasury.near"), amount: 25 }]
    );
    assert!(fx.events.is_empty());
    // reserved: not registered yet, and not available to anyone else
    assert_eq!(reg.get_record("alice"), None);
    assert_eq!(reg.register(&s("bob.near"), s("alice"), 1000, 12).err(), Some(ErrorCode::NameTaken));
    assert_eq!(reg.create(s("alice"), s("x"), s("x"), 12).err(), Some(ErrorCode::NameTaken));

    let done = reg.ft_transfer_callback(s("alice"), true).ok().unwrap();
    assert_eq!(
        reg.get_record("alice"),
        Some(Record { owner: alice.clone(), resolved: alice.clone(), updated_at: 11 })
    );
    assert_eq!(reg.get_primary_name("alice.near"), Some(s("alice")));
    assert!(done.payouts.is_empty());
    assert_eq!(
        done.events,
        vec![
            Event::PrimaryNameSet { owner: alice.clone(), name: s("alice") },
            Event::Registered { name: s("alice"), owner: alice.clone(), payer: alice.clone(), amount: 25 },
            Event::FeePaid {
                name: s("alice"),
                payer: alice.clone(),
                currency: Some(s("usdc.near")),
                total: 25,
                referrer: None,
                referrer_amount: 0,
                treasury_amount: 25,
            },
        ]
    );
    // settled once: a second confirmation finds nothing pending
    assert_eq!(reg.ft_transfer_callback(s("alice"), true).err(), Some(ErrorCode::NotFound));
}

#[test]
fn asset_payment_failure_leaves_no_record() {
    let mut reg = registry_with_usdc();
    let alice = s("alice.near");
    reg.register(&alice, s("first"), 1000, 1).ok().unwrap();
    reg.register_with_ft(&alice, s("alice"), s("usdc.near"), 0, 2).ok().unwrap();
    let r = reg.ft_transfer_callback(s("alice"), false);
    assert_eq!(r.err(), Some(ErrorCode::PaymentFailed));
    assert_eq!(reg.get_record("alice"), None);
    assert_eq!(reg.get_primary_name("alice.near"), Some(s("first")));
    // the reservation is released: the name can be tried again
    assert!(reg.register_with_ft(&alice, s("alice"), s("usdc.near"), 0, 3).is_ok());
}

#[test]
fn asset_payment_failure_sets_no_primary() {
    let mut reg = registry_with_usdc();
    let bob = s("bob.near");
    reg.register_with_ft(&bob, s("bobby"), s("usdc.near"), 0, 2).ok().unwrap();
    assert_eq!(reg.ft_transfer_callback(s("bobby"), false).err(), Some(ErrorCode::PaymentFailed));
    assert_eq!(reg.get_primary_name("bob.near"), None);
    assert_eq!(reg.get_record("bobby"), None);
}

#[test]
fn callback_without_pending_payment() {
    let mut reg = registry_with_usdc();
    assert_eq!(reg.ft_transfer_callback(s("nobody"), true).err(), Some(ErrorCode::NotFound));
    assert_eq!(reg.ft_transfer_callback(s("nobody"), false).err(), Some(ErrorCode::NotFound));
}

#[test]
fn register_name_with_token_reserves() {
    let mut reg = registry_with_usdc();
    let alice = s("alice.near");
    let fx = reg.register_name_with_token(&alice, s("alice"), s("usdc.near"), 4).ok().unwrap();
    assert_eq!(fx.payouts[0].amount, 25);
    assert_eq!(fx.payouts[0].asset, Some(s("usdc.near")));
    assert_eq!(
        reg.register_name_with_token(&alice, s("alice"), s("usdc.near"), 5).err(),
        Some(ErrorCode::NameTaken)
    );
    assert_eq!(
        reg.register_name_with_token(&alice, s("bobby"), s("dai.near"), 5).err(),
        Some(ErrorCode::AssetNotAccepted)
    );
}
