//! The registration paths: paid in the native unit, paid in an external
//! asset (reserve, settle, then commit or roll back), and relayed with the
//! owner's signature.
//!
//! A record is created only once its payment is assured: at once when the
//! native fee comes with the call, and only after the asset transfer is
//! confirmed otherwise. A refused registration changes nothing.

use vstd::prelude::*;
use crate::fees::{split_fee, split_of};
use crate::meta::{nonce_accepted, nonce_step, relayer_outcome, signature_outcome};
use crate::name::{is_valid_name, valid_name};
use crate::registry::{NameRegistry, RegistryView};
use crate::types::{Effects, ErrorCode, Event, PendingRegistration, Payout, RecordView, RegisterWithSigParams};

verus! {

/// The primary-name event of `owner` registering `name`: one exactly when
/// `owner` has no primary name yet.
pub open spec fn primary_events(reg: RegistryView, owner: String, name: String) -> Seq<Event> {
    if reg.primary_names.contains_key(owner@) {
        Seq::empty()
    } else {
        seq![Event::PrimaryNameSet { owner, name }]
    }
}

/// The events of a committed registration: the primary-name event, if any,
/// then `Registered` and `FeePaid`.
pub open spec fn registration_events(
    primary: Seq<Event>,
    name: String,
    owner: String,
    payer: String,
    currency: Option<String>,
    total: u128,
    referrer: Option<String>,
    referrer_amount: u128,
    treasury_amount: u128,
) -> Seq<Event> {
    primary + seq![
        Event::Registered { name, owner, payer, amount: total },
        Event::FeePaid {
            name,
            payer,
            currency,
            total,
            referrer,
            referrer_amount,
            treasury_amount,
        },
    ]
}

/// The transfers of a split fee paid by `payer`: the treasury share, then
/// the referrer share, each only if nonzero.
pub open spec fn split_payouts(
    asset: Option<String>,
    payer: String,
    treasury: String,
    referrer: String,
    referrer_amount: u128,
    treasury_amount: u128,
) -> Seq<Payout> {
    (if treasury_amount > 0 {
        seq![Payout { asset, from: payer, to: treasury, amount: treasury_amount }]
    } else {
        Seq::empty()
    }) + (if referrer_amount > 0 {
        seq![Payout { asset, from: payer, to: referrer, amount: referrer_amount }]
    } else {
        Seq::empty()
    })
}

/// The verdict on a direct registration of `name` with `deposit` attached.
pub open spec fn register_outcome(reg: RegistryView, name: Seq<char>, deposit: u128) -> Result<(), ErrorCode> {
    if !valid_name(name) {
        Err(ErrorCode::InvalidName)
    } else if !reg.available(name) {
        Err(ErrorCode::NameTaken)
    } else if deposit != reg.registration_fee {
        Err(ErrorCode::InsufficientFee)
    } else {
        Ok(())
    }
}

/// The verdict on a registration of `name` paid in `token`.
pub open spec fn register_with_ft_outcome(reg: RegistryView, name: Seq<char>, token: Seq<char>, deposit: u128) -> Result<(), ErrorCode> {
    if deposit != 0 {
        Err(ErrorCode::NativeDepositNotAllowed)
    } else if !valid_name(name) {
        Err(ErrorCode::InvalidName)
    } else if !reg.available(name) {
        Err(ErrorCode::NameTaken)
    } else if !reg.coin_fees.contains_key(token) {
        Err(ErrorCode::AssetNotAccepted)
    } else {
        Ok(())
    }
}

/// The verdict on the payment of a relayed registration.
pub open spec fn payment_outcome(reg: RegistryView, p: RegisterWithSigParams, deposit: u128) -> Result<(), ErrorCode> {
    match p.currency {
        None => if deposit != reg.registration_fee {
            Err(ErrorCode::InsufficientFee)
        } else {
            Ok(())
        },
        Some(t) => if deposit != 0 {
            Err(ErrorCode::NativeDepositNotAllowed)
        } else if !reg.coin_fees.contains_key(t@) {
            Err(ErrorCode::AssetNotAccepted)
        } else if p.amount != reg.coin_fees[t@] {
            Err(ErrorCode::InsufficientFee)
        } else {
            Ok(())
        },
    }
}

/// The verdict on a relayed registration, check by check: deadline,
/// relayer, nonce, name, availability, owner, signature, payment. The
/// replay checks come first, so a replayed request is refused as such.
pub open spec fn register_with_sig_outcome(
    reg: RegistryView,
    caller: Seq<char>,
    p: RegisterWithSigParams,
    sig_text: Seq<char>,
    deposit: u128,
    now: u64,
    registry: Seq<char>,
) -> Result<(), ErrorCode> {
    if now > p.deadline {
        Err(ErrorCode::DeadlineExpired)
    } else if relayer_outcome(reg, caller, p) is Err {
        relayer_outcome(reg, caller, p)
    } else if !nonce_accepted(reg, p) {
        Err(ErrorCode::InvalidNonce)
    } else if !valid_name(p.name@) {
        Err(ErrorCode::InvalidName)
    } else if !reg.available(p.name@) {
        Err(ErrorCode::NameTaken)
    } else if p.owner@.len() == 0 {
        Err(ErrorCode::InvalidAccount)
    } else if signature_outcome(reg, registry, p, sig_text) is Err {
        signature_outcome(reg, registry, p, sig_text)
    } else {
        payment_outcome(reg, p, deposit)
    }
}

fn push_split_payouts(
    out: &mut Vec<Payout>,
    asset: &Option<String>,
    payer: &String,
    treasury: &String,
    referrer: &String,
    referrer_amount: u128,
    treasury_amount: u128,
)
    requires
        old(out)@.len() == 0,
    ensures
        final(out)@ == split_payouts(*asset, *payer, *treasury, *referrer, referrer_amount, treasury_amount),
{
    if treasury_amount > 0 {
        out.push(Payout { asset: clone_opt(asset), from: payer.clone(), to: treasury.clone(), amount: treasury_amount });
    }
    if referrer_amount > 0 {
        out.push(Payout { asset: clone_opt(asset), from: payer.clone(), to: referrer.clone(), amount: referrer_amount });
    }
    assert(out@ =~= split_payouts(*asset, *payer, *treasury, *referrer, referrer_amount, treasury_amount));
}

fn clone_opt(o: &Option<String>) -> (r: Option<String>)
    ensures
        r == *o,
{
    match o {
        Some(s) => Some(s.clone()),
        None => None,
    }
}

fn push_registration_events(
    events: &mut Vec<Event>,
    name: &String,
    owner: &String,
    payer: &String,
    currency: Option<String>,
    total: u128,
    referrer: Option<String>,
    referrer_amount: u128,
    treasury_amount: u128,
)
    ensures
        final(events)@ == registration_events(
            old(events)@,
            *name,
            *owner,
            *payer,
            currency,
            total,
            referrer,
            referrer_amount,
            treasury_amount,
        ),
{
    events.push(Event::Registered { name: name.clone(), owner: owner.clone(), payer: payer.clone(), amount: total });
    events.push(
        Event::FeePaid {
            name: name.clone(),
            payer: payer.clone(),
            currency,
            total,
            referrer,
            referrer_amount,
            treasury_amount,
        },
    );
    assert(events@ =~= registration_events(
        old(events)@,
        *name,
        *owner,
        *payer,
        currency,
        total,
        referrer,
        referrer_amount,
        treasury_amount,
    ));
}

impl NameRegistry {
    /// Registers `name` for `caller`, who attached `deposit` of the native
    /// unit, at `now`. The deposit must equal the native fee exactly; the
    /// whole fee goes to the treasury.
    pub fn register(&mut self, caller: &String, name: String, deposit: u128, now: u64) -> (r: Result<Effects, ErrorCode>)
        requires
            old(self).wf(),
        ensures
            final(self).wf(),
            old(self)@.keeps_names(final(self)@),
            r matches Err(e) ==> register_outcome(old(self)@, name@, deposit) == Err::<(), ErrorCode>(e),
            r is Ok <==> register_outcome(old(self)@, name@, deposit) is Ok,
            r is Err ==> final(self)@ == old(self)@,
            r matches Ok(effects) ==> {
                &&& final(self)@ == (RegistryView {
                    records: old(self)@.records.insert(
                        name@,
                        RecordView { owner: caller@, resolved: caller@, updated_at: now },
                    ),
                    primary_names: old(self)@.primaries_after_claim(caller@, name@),
                    ..old(self)@
                })
                &&& effects.payouts@ == seq![
                    Payout { asset: None, from: *caller, to: old(self).treasury, amount: deposit },
                ]
                &&& effects.events@ == registration_events(
                    primary_events(old(self)@, *caller, name),
                    name,
                    *caller,
                    *caller,
                    None,
                    deposit,
                    None,
                    0,
                    deposit,
                )
            },
    {
        if !is_valid_name(name.as_str()) {
            return Err(ErrorCode::InvalidName);
        }
        if self.records.contains_key(name.as_str()) || self.pending.contains_key(name.as_str()) {
            return Err(ErrorCode::NameTaken);
        }
        if deposit != self.registration_fee {
            return Err(ErrorCode::InsufficientFee);
        }
        let treasury = self.treasury.clone();
        let mut events = self.insert_record(&name, caller, caller, now);
        push_registration_events(&mut events, &name, caller, caller, None, deposit, None, 0, deposit);
        let payouts = vec![Payout { asset: None, from: caller.clone(), to: treasury, amount: deposit }];
        assert(payouts@ =~= seq![Payout { asset: None, from: *caller, to: old(self).treasury, amount: deposit }]);
        Ok(Effects { payouts, events })
    }

    /// Registers `name` for `caller`, who pays exactly the native fee: the
    /// same as [`NameRegistry::register`] with the fee as deposit.
    pub fn register_name(&mut self, caller: &String, name: String, now: u64) -> (r: Result<Effects, ErrorCode>)
        requires
            old(self).wf(),
        ensures
            final(self).wf(),
            old(self)@.keeps_names(final(self)@),
            r matches Err(e) ==> register_outcome(old(self)@, name@, old(self).registration_fee) == Err::<(), ErrorCode>(e),
            r is Ok <==> register_outcome(old(self)@, name@, old(self).registration_fee) is Ok,
            r is Err ==> final(self)@ == old(self)@,
            r matches Ok(effects) ==> {
                &&& final(self)@ == (RegistryView {
                    records: old(self)@.records.insert(
                        name@,
                        RecordView { owner: caller@, resolved: caller@, updated_at: now },
                    ),
                    primary_names: old(self)@.primaries_after_claim(caller@, name@),
                    ..old(self)@
                })
                &&& effects.payouts@ == seq![
                    Payout { asset: None, from: *caller, to: old(self).treasury, amount: old(self).registration_fee },
                ]
                &&& effects.events@ == registration_events(
                    primary_events(old(self)@, *caller, name),
                    name,
                    *caller,
                    *caller,
                    None,
                    old(self).registration_fee,
                    None,
                    0,
                    old(self).registration_fee,
                )
            },
    {
        let fee = self.registration_fee;
        self.register(caller, name, fee, now)
    }

    /// Starts a registration of `name` for `caller` paid in `mint`, with no
    /// native deposit: the same as [`NameRegistry::register_with_ft`].
    pub fn register_name_with_token(&mut self, caller: &String, name: String, mint: String, now: u64) -> (r: Result<Effects, ErrorCode>)
        requires
            old(self).wf(),
        ensures
            final(self).wf(),
            old(self)@.keeps_names(final(self)@),
            r matches Err(e) ==> register_with_ft_outcome(old(self)@, name@, mint@, 0) == Err::<(), ErrorCode>(e),
            r is Ok <==> register_with_ft_outcome(old(self)@, name@, mint@, 0) is Ok,
            r is Err ==> final(self)@ == old(self)@,
            r matches Ok(effects) ==> {
                let fee = old(self)@.coin_fees[mint@];
                &&& final(self)@.pending == old(self)@.pending.insert(
                    name@,
                    PendingRegistration {
                        owner: *caller,
                        payer: *caller,
                        asset: mint,
                        total: fee,
                        referrer: None,
                        referrer_amount: 0,
                        treasury_amount: fee,
                        timestamp: now,
                    },
                )
                &&& final(self)@ == (RegistryView { pending: final(self)@.pending, ..old(self)@ })
                &&& effects.payouts@ == seq![
                    Payout { asset: Some(mint), from: *caller, to: old(self).treasury, amount: fee },
                ]
                &&& effects.events@.len() == 0
            },
    {
        self.register_with_ft(caller, name, mint, 0, now)
    }

    /// Starts a registration of `name` for `caller`, paid in `token`. The
    /// name is reserved and the returned transfer of the asset's fee to the
    /// treasury must settle before [`NameRegistry::ft_transfer_callback`]
    /// commits or rolls back.
    pub fn register_with_ft(&mut self, caller: &String, name: String, token: String, deposit: u128, now: u64) -> (r: Result<Effects, ErrorCode>)
        requires
            old(self).wf(),
        ensures
            final(self).wf(),
            old(self)@.keeps_names(final(self)@),
            r matches Err(e) ==> register_with_ft_outcome(old(self)@, name@, token@, deposit) == Err::<(), ErrorCode>(e),
            r is Ok <==> register_with_ft_outcome(old(self)@, name@, token@, deposit) is Ok,
            r is Err ==> final(self)@ == old(self)@,
            r matches Ok(effects) ==> {
                let fee = old(self)@.coin_fees[token@];
                &&& final(self)@ == (RegistryView {
                    pending: old(self)@.pending.insert(
                        name@,
                        PendingRegistration {
                            owner: *caller,
                            payer: *caller,
                            asset: token,
                            total: fee,
                            referrer: None,
                            referrer_amount: 0,
                            treasury_amount: fee,
                            timestamp: now,
                        },
                    ),
                    ..old(self)@
                })
                &&& effects.payouts@ == seq![
                    Payout { asset: Some(token), from: *caller, to: old(self).treasury, amount: fee },
                ]
                &&& effects.events@.len() == 0
            },
    {
        if deposit != 0 {
            return Err(ErrorCode::NativeDepositNotAllowed);
        }
        if !is_valid_name(name.as_str()) {
            return Err(ErrorCode::InvalidName);
        }
        if self.records.contains_key(name.as_str()) || self.pending.contains_key(name.as_str()) {
            return Err(ErrorCode::NameTaken);
        }
        let fee = match self.coin_fees.get(token.as_str()) {
            None => {
                return Err(ErrorCode::AssetNotAccepted);
            },
            Some(f) => *f,
        };
        let pending = PendingRegistration {
            owner: caller.clone(),
            payer: caller.clone(),
            asset: token.clone(),
            total: fee,
            referrer: None,
            referrer_amount: 0,
            treasury_amount: fee,
            timestamp: now,
        };
        self.pending.insert(name, pending);
        let payouts = vec![Payout { asset: Some(token), from: caller.clone(), to: self.treasury.clone(), amount: fee }];
        assert(payouts@ =~= seq![Payout { asset: Some(token), from: *caller, to: old(self).treasury, amount: fee }]);
        Ok(Effects { payouts, events: Vec::new() })
    }

    /// Resolves the pending registration of `name` once its asset transfer
    /// has settled: on success the record is created; on failure the
    /// reservation is dropped and nothing else changes.
    pub fn ft_transfer_callback(&mut self, name: String, transfer_success: bool) -> (r: Result<Effects, ErrorCode>)
        requires
            old(self).wf(),
        ensures
            final(self).wf(),
            old(self)@.keeps_names(final(self)@),
            !old(self)@.pending.contains_key(name@) ==> r == Err::<Effects, ErrorCode>(ErrorCode::NotFound)
                && final(self)@ == old(self)@,
            old(self)@.pending.contains_key(name@) && !transfer_success ==> r == Err::<Effects, ErrorCode>(
                ErrorCode::PaymentFailed,
            ) && old(self)@.rolled_back(final(self)@, name@),
            r is Ok <==> old(self)@.pending.contains_key(name@) && transfer_success,
            r matches Ok(effects) ==> {
                let p = old(self)@.pending[name@];
                &&& final(self)@ == (RegistryView {
                    records: old(self)@.records.insert(
                        name@,
                        RecordView { owner: p.owner@, resolved: p.owner@, updated_at: p.timestamp },
                    ),
                    primary_names: old(self)@.primaries_after_claim(p.owner@, name@),
                    pending: old(self)@.pending.remove(name@),
                    ..old(self)@
                })
                &&& effects.payouts@.len() == 0
                &&& effects.events@ == registration_events(
                    primary_events(old(self)@, p.owner, name),
                    name,
                    p.owner,
                    p.payer,
                    Some(p.asset),
                    p.total,
                    p.referrer,
                    p.referrer_amount,
                    p.treasury_amount,
                )
            },
    {
        let p = match self.pending.get(name.as_str()) {
            None => {
                return Err(ErrorCode::NotFound);
            },
            Some(p) => p.duplicate(),
        };
        self.pending.remove(name.as_str());
        if !transfer_success {
            return Err(ErrorCode::PaymentFailed);
        }
        let mut events = self.insert_record(&name, &p.owner, &p.owner, p.timestamp);
        push_registration_events(
            &mut events,
            &name,
            &p.owner,
            &p.payer,
            Some(p.asset),
            p.total,
            p.referrer,
            p.referrer_amount,
            p.treasury_amount,
        );
        Ok(Effects { payouts: Vec::new(), events })
    }

    /// Registers `params.name` for `params.owner` on the owner's signed
    /// request, submitted by the relayer `caller` at `now` with `deposit` of
    /// the native unit attached. `registry_id` is this registry's identity,
    /// which the signed message binds.
    ///
    /// In the native unit the deposit must be the native fee; it is split
    /// between the treasury and the relayer as referrer, and the record is
    /// created at once. In an asset the signed amount must be the asset's
    /// fee; the name is reserved and the relayer's two transfers must settle
    /// before [`NameRegistry::ft_transfer_callback`] commits. Either way the
    /// request's nonce is consumed on success, and only then.
    pub fn register_with_sig(
        &mut self,
        caller: &String,
        params: RegisterWithSigParams,
        signature: String,
        deposit: u128,
        now: u64,
        registry_id: &String,
    ) -> (r: Result<Effects, ErrorCode>)
        requires
            old(self).wf(),
        ensures
            final(self).wf(),
            old(self)@.keeps_names(final(self)@),
            r matches Err(e) ==> register_with_sig_outcome(
                old(self)@,
                caller@,
                params,
                signature@,
                deposit,
                now,
                registry_id@,
            ) == Err::<(), ErrorCode>(e),
            r is Ok <==> register_with_sig_outcome(
                old(self)@,
                caller@,
                params,
                signature@,
                deposit,
                now,
                registry_id@,
            ) is Ok,
            r is Err ==> final(self)@ == old(self)@,
            nonce_step(old(self)@, final(self)@, params.name@, r is Ok),
            r matches Ok(effects) ==> {
                let advanced = old(self)@.nonces.insert(
                    params.name@,
                    (old(self)@.nonce_of(params.name@) + 1) as u64,
                );
                match params.currency {
                    None => {
                        let (ra, ta) = split_of(deposit, old(self)@.referrer_bps);
                        &&& final(self)@ == (RegistryView {
                            records: old(self)@.records.insert(
                                params.name@,
                                RecordView { owner: params.owner@, resolved: params.owner@, updated_at: now },
                            ),
                            primary_names: old(self)@.primaries_after_claim(params.owner@, params.name@),
                            nonces: advanced,
                            ..old(self)@
                        })
                        &&& effects.payouts@ == split_payouts(None, *caller, old(self).treasury, *caller, ra, ta)
                        &&& effects.events@ == registration_events(
                            primary_events(old(self)@, params.owner, params.name),
                            params.name,
                            params.owner,
                            *caller,
                            None,
                            deposit,
                            Some(*caller),
                            ra,
                            ta,
                        )
                    },
                    Some(token) => {
                        let fee = old(self)@.coin_fees[token@];
                        let (ra, ta) = split_of(fee, old(self)@.referrer_bps);
                        &&& final(self)@ == (RegistryView {
                            nonces: advanced,
                            pending: old(self)@.pending.insert(
                                params.name@,
                                PendingRegistration {
                                    owner: params.owner,
                                    payer: *caller,
                                    asset: token,
                                    total: fee,
                                    referrer: Some(*caller),
                                    referrer_amount: ra,
                                    treasury_amount: ta,
                                    timestamp: now,
                                },
                            ),
                            ..old(self)@
                        })
                        &&& effects.payouts@ == split_payouts(Some(token), *caller, old(self).treasury, *caller, ra, ta)
                        &&& effects.events@.len() == 0
                    },
                }
            },
    {
        if now > params.deadline {
            return Err(ErrorCode::DeadlineExpired);
        }
        if let Err(e) = self.check_relayer(caller, &params) {
            return Err(e);
        }
        if !self.check_nonce(&params) {
            return Err(ErrorCode::InvalidNonce);
        }
        if !is_valid_name(params.name.as_str()) {
            return Err(ErrorCode::InvalidName);
        }
        if self.records.contains_key(params.name.as_str()) || self.pending.contains_key(params.name.as_str()) {
            return Err(ErrorCode::NameTaken);
        }
        if params.owner.as_str().is_empty() {
            return Err(ErrorCode::InvalidAccount);
        }
        if let Err(e) = self.check_signature(&params, &signature, registry_id) {
            return Err(e);
        }
        let treasury = self.treasury.clone();
        let bps = self.referrer_bps;
        match &params.currency {
            None => {
                if deposit != self.registration_fee {
                    return Err(ErrorCode::InsufficientFee);
                }
                let (ra, ta) = split_fee(deposit, bps);
                self.advance_nonce(&params.name);
                let mut events = self.insert_record(&params.name, &params.owner, &params.owner, now);
                push_registration_events(
                    &mut events,
                    &params.name,
                    &params.owner,
                    caller,
                    None,
                    deposit,
                    Some(caller.clone()),
                    ra,
                    ta,
                );
                let mut payouts: Vec<Payout> = Vec::new();
                push_split_payouts(&mut payouts, &None, caller, &treasury, caller, ra, ta);
                Ok(Effects { payouts, events })
            },
            Some(token) => {
                if deposit != 0 {
                    return Err(ErrorCode::NativeDepositNotAllowed);
                }
                let fee = match self.coin_fees.get(token.as_str()) {
                    None => {
                        return Err(ErrorCode::AssetNotAccepted);
                    },
                    Some(f) => *f,
                };
                if params.amount != fee {
                    return Err(ErrorCode::InsufficientFee);
                }
                let (ra, ta) = split_fee(fee, bps);
                self.advance_nonce(&params.name);
                let pending = PendingRegistration {
                    owner: params.owner.clone(),
                    payer: caller.clone(),
                    asset: token.clone(),
                    total: fee,
                    referrer: Some(caller.clone()),
                    referrer_amount: ra,
                    treasury_amount: ta,
                    timestamp: now,
                };
                self.pending.insert(params.name.clone(), pending);
                let mut payouts: Vec<Payout> = Vec::new();
                push_split_payouts(&mut payouts, &Some(token.clone()), caller, &treasury, caller, ra, ta);
                Ok(Effects { payouts, events: Vec::new() })
            },
        }
    }
}

} // verus!
