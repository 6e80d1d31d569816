//! The administrative surface and the key-authorization table.
//!
//! Every administrative setter is reserved to the configured administrator
//! and refuses anyone else with `Unauthorized`, changing nothing.

use vstd::prelude::*;
use vstd::string::StringExecFns;
use vstd::utf8::encode_utf8;
use crate::crypto::{base58_encode, base58_of, parse_public_key, parsed_public_key};
use crate::fees::BPS_DENOMINATOR;
use crate::registry::{NameRegistry, RegistryView};
use crate::types::ErrorCode;

verus! {

/// The entry of the authorization table that lets the key whose base58 text
/// is `key_b58` act for `account`: `<account>:<key_b58>`.
pub open spec fn auth_entry(account: Seq<char>, key_b58: Seq<char>) -> Seq<char> {
    account + seq![':'] + key_b58
}

/// The table entry for `account` and the key bytes `key`.
pub(crate) fn make_auth_entry(account: &String, key: &[u8]) -> (r: String)
    ensures
        r@ == auth_entry(account@, base58_of(key@)),
{
    let key_b58 = base58_encode(key);
    let r = account.clone().concat(":").concat(key_b58.as_str());
    proof {
        reveal_strlit(":");
    }
    assert(r@ =~= auth_entry(account@, base58_of(key@)));
    r
}

impl NameRegistry {
    /// Sets the native registration fee.
    pub fn set_registration_fee(&mut self, caller: &String, amount: u128) -> (r: Result<(), ErrorCode>)
        requires
            old(self).wf(),
        ensures
            final(self).wf(),
            old(self)@.keeps_names(final(self)@),
            r is Ok <==> caller@ == old(self)@.owner,
            r is Err ==> r == Err::<(), ErrorCode>(ErrorCode::Unauthorized) && final(self)@ == old(self)@,
            r is Ok ==> final(self)@ == (RegistryView { registration_fee: amount, ..old(self)@ }),
    {
        if *caller != self.owner {
            return Err(ErrorCode::Unauthorized);
        }
        self.registration_fee = amount;
        Ok(())
    }

    /// Sets the treasury; refuses an empty identity.
    pub fn set_treasury(&mut self, caller: &String, treasury: String) -> (r: Result<(), ErrorCode>)
        requires
            old(self).wf(),
        ensures
            final(self).wf(),
            old(self)@.keeps_names(final(self)@),
            caller@ != old(self)@.owner ==> r == Err::<(), ErrorCode>(ErrorCode::Unauthorized),
            caller@ == old(self)@.owner && treasury@.len() == 0 ==> r == Err::<(), ErrorCode>(ErrorCode::InvalidAccount),
            r is Ok <==> caller@ == old(self)@.owner && treasury@.len() > 0,
            r is Err ==> final(self)@ == old(self)@,
            r is Ok ==> final(self)@ == (RegistryView { treasury: treasury@, ..old(self)@ }),
    {
        if *caller != self.owner {
            return Err(ErrorCode::Unauthorized);
        }
        if treasury.as_str().is_empty() {
            return Err(ErrorCode::InvalidAccount);
        }
        self.treasury = treasury;
        Ok(())
    }

    /// Sets the referrer rate; refuses a rate above 10000 basis points.
    pub fn set_referrer_bps(&mut self, caller: &String, bps: u16) -> (r: Result<(), ErrorCode>)
        requires
            old(self).wf(),
        ensures
            final(self).wf(),
            old(self)@.keeps_names(final(self)@),
            caller@ != old(self)@.owner ==> r == Err::<(), ErrorCode>(ErrorCode::Unauthorized),
            caller@ == old(self)@.owner && bps > BPS_DENOMINATOR ==> r == Err::<(), ErrorCode>(ErrorCode::InvalidReferrerBps),
            r is Ok <==> caller@ == old(self)@.owner && bps <= BPS_DENOMINATOR,
            r is Err ==> final(self)@ == old(self)@,
            r is Ok ==> final(self)@ == (RegistryView { referrer_bps: bps, ..old(self)@ }),
    {
        if *caller != self.owner {
            return Err(ErrorCode::Unauthorized);
        }
        if bps > BPS_DENOMINATOR {
            return Err(ErrorCode::InvalidReferrerBps);
        }
        self.referrer_bps = bps;
        Ok(())
    }

    /// Adds `relayer` to the allowlist (`allowed`) or removes it.
    pub fn set_relayer(&mut self, caller: &String, relayer: String, allowed: bool) -> (r: Result<(), ErrorCode>)
        requires
            old(self).wf(),
        ensures
            final(self).wf(),
            old(self)@.keeps_names(final(self)@),
            r is Ok <==> caller@ == old(self)@.owner,
            r is Err ==> r == Err::<(), ErrorCode>(ErrorCode::Unauthorized) && final(self)@ == old(self)@,
            r is Ok ==> final(self)@ == (RegistryView {
                relayers: if allowed {
                    old(self)@.relayers.insert(relayer@)
                } else {
                    old(self)@.relayers.remove(relayer@)
                },
                ..old(self)@
            }),
    {
        if *caller != self.owner {
            return Err(ErrorCode::Unauthorized);
        }
        if allowed {
            self.relayers.insert(relayer, true);
            assert(self@.relayers =~= old(self)@.relayers.insert(relayer@));
        } else {
            self.relayers.remove(relayer.as_str());
            assert(self@.relayers =~= old(self)@.relayers.remove(relayer@));
        }
        Ok(())
    }

    /// Adds `relayer` to the allowlist.
    pub fn add_relayer(&mut self, caller: &String, relayer: String) -> (r: Result<(), ErrorCode>)
        requires
            old(self).wf(),
        ensures
            final(self).wf(),
            old(self)@.keeps_names(final(self)@),
            r is Ok <==> caller@ == old(self)@.owner,
            r is Err ==> r == Err::<(), ErrorCode>(ErrorCode::Unauthorized) && final(self)@ == old(self)@,
            r is Ok ==> final(self)@ == (RegistryView { relayers: old(self)@.relayers.insert(relayer@), ..old(self)@ }),
    {
        self.set_relayer(caller, relayer, true)
    }

    /// Removes `relayer` from the allowlist.
    pub fn remove_relayer(&mut self, caller: &String, relayer: String) -> (r: Result<(), ErrorCode>)
        requires
            old(self).wf(),
        ensures
            final(self).wf(),
            old(self)@.keeps_names(final(self)@),
            r is Ok <==> caller@ == old(self)@.owner,
            r is Err ==> r == Err::<(), ErrorCode>(ErrorCode::Unauthorized) && final(self)@ == old(self)@,
            r is Ok ==> final(self)@ == (RegistryView { relayers: old(self)@.relayers.remove(relayer@), ..old(self)@ }),
    {
        self.set_relayer(caller, relayer, false)
    }

    /// Turns the relayer allowlist on or off.
    pub fn set_require_relayer_allowlist(&mut self, caller: &String, required: bool) -> (r: Result<(), ErrorCode>)
        requires
            old(self).wf(),
        ensures
            final(self).wf(),
            old(self)@.keeps_names(final(self)@),
            r is Ok <==> caller@ == old(self)@.owner,
            r is Err ==> r == Err::<(), ErrorCode>(ErrorCode::Unauthorized) && final(self)@ == old(self)@,
            r is Ok ==> final(self)@ == (RegistryView { require_relayer_allowlist: required, ..old(self)@ }),
    {
        if *caller != self.owner {
            return Err(ErrorCode::Unauthorized);
        }
        self.require_relayer_allowlist = required;
        Ok(())
    }

    /// Accepts `coin` for payment at `fee`; returns the fee set.
    pub fn set_coin_fee(&mut self, caller: &String, coin: String, fee: u128) -> (r: Result<u128, ErrorCode>)
        requires
            old(self).wf(),
        ensures
            final(self).wf(),
            old(self)@.keeps_names(final(self)@),
            r is Ok <==> caller@ == old(self)@.owner,
            r is Err ==> r == Err::<u128, ErrorCode>(ErrorCode::Unauthorized) && final(self)@ == old(self)@,
            r is Ok ==> r == Ok::<u128, ErrorCode>(fee) && final(self)@ == (RegistryView {
                coin_fees: old(self)@.coin_fees.insert(coin@, fee),
                ..old(self)@
            }),
    {
        if *caller != self.owner {
            return Err(ErrorCode::Unauthorized);
        }
        self.coin_fees.insert(coin, fee);
        Ok(fee)
    }

    /// Sets the fee of `mint` when `enabled`; otherwise stops accepting it.
    pub fn set_token_fee(&mut self, caller: &String, mint: String, amount: u128, enabled: bool) -> (r: Result<(), ErrorCode>)
        requires
            old(self).wf(),
        ensures
            final(self).wf(),
            old(self)@.keeps_names(final(self)@),
            r is Ok <==> caller@ == old(self)@.owner,
            r is Err ==> r == Err::<(), ErrorCode>(ErrorCode::Unauthorized) && final(self)@ == old(self)@,
            r is Ok ==> final(self)@ == (RegistryView {
                coin_fees: if enabled {
                    old(self)@.coin_fees.insert(mint@, amount)
                } else {
                    old(self)@.coin_fees.remove(mint@)
                },
                ..old(self)@
            }),
    {
        if *caller != self.owner {
            return Err(ErrorCode::Unauthorized);
        }
        if enabled {
            self.coin_fees.insert(mint, amount);
        } else {
            self.coin_fees.remove(mint.as_str());
        }
        Ok(())
    }

    /// Names `new_admin` as the next administrator; it takes over once it accepts.
    pub fn transfer_admin(&mut self, caller: &String, new_admin: String) -> (r: Result<(), ErrorCode>)
        requires
            old(self).wf(),
        ensures
            final(self).wf(),
            old(self)@.keeps_names(final(self)@),
            r is Ok <==> caller@ == old(self)@.owner,
            r is Err ==> r == Err::<(), ErrorCode>(ErrorCode::Unauthorized) && final(self)@ == old(self)@,
            r is Ok ==> final(self)@ == (RegistryView { pending_owner: Some(new_admin@), ..old(self)@ }),
    {
        if *caller != self.owner {
            return Err(ErrorCode::Unauthorized);
        }
        self.pending_owner = Some(new_admin);
        Ok(())
    }

    /// The named next administrator takes over. Anyone else, or anyone at all
    /// when no hand-over is pending, is refused.
    pub fn accept_admin(&mut self, caller: &String) -> (r: Result<(), ErrorCode>)
        requires
            old(self).wf(),
        ensures
            final(self).wf(),
            old(self)@.keeps_names(final(self)@),
            r is Ok <==> old(self)@.pending_owner == Some(caller@),
            r is Err ==> r == Err::<(), ErrorCode>(ErrorCode::Unauthorized) && final(self)@ == old(self)@,
            r is Ok ==> final(self)@ == (RegistryView { owner: caller@, pending_owner: None, ..old(self)@ }),
    {
        match &self.pending_owner {
            None => {
                return Err(ErrorCode::Unauthorized);
            },
            Some(p) => {
                if *p != *caller {
                    return Err(ErrorCode::Unauthorized);
                }
            },
        }
        self.owner = caller.clone();
        self.pending_owner = None;
        Ok(())
    }

    /// Lets the key written as `public_key` act for the caller in relayed
    /// registrations.
    pub fn authorize_key(&mut self, caller: &String, public_key: String) -> (r: Result<(), ErrorCode>)
        requires
            old(self).wf(),
        ensures
            final(self).wf(),
            old(self)@.keeps_names(final(self)@),
            r is Ok <==> parsed_public_key(encode_utf8(public_key@)) is Some,
            r is Err ==> r == Err::<(), ErrorCode>(ErrorCode::InvalidPublicKey) && final(self)@ == old(self)@,
            r is Ok ==> final(self)@ == (RegistryView {
                authorized_keys: old(self)@.authorized_keys.insert(
                    auth_entry(caller@, base58_of(parsed_public_key(encode_utf8(public_key@))->0)),
                ),
                ..old(self)@
            }),
    {
        let key = match parse_public_key(public_key.as_str().as_bytes()) {
            None => {
                return Err(ErrorCode::InvalidPublicKey);
            },
            Some(k) => k,
        };
        let entry = make_auth_entry(caller, key.as_slice());
        self.authorized_keys.insert(entry, true);
        assert(self@.authorized_keys =~= old(self)@.authorized_keys.insert(
            auth_entry(caller@, base58_of(key@)),
        ));
        Ok(())
    }

    /// Withdraws the caller's authorization of the key written as `public_key`.
    pub fn revoke_key(&mut self, caller: &String, public_key: String) -> (r: Result<(), ErrorCode>)
        requires
            old(self).wf(),
        ensures
            final(self).wf(),
            old(self)@.keeps_names(final(self)@),
            r is Ok <==> parsed_public_key(encode_utf8(public_key@)) is Some,
            r is Err ==> r == Err::<(), ErrorCode>(ErrorCode::InvalidPublicKey) && final(self)@ == old(self)@,
            r is Ok ==> final(self)@ == (RegistryView {
                authorized_keys: old(self)@.authorized_keys.remove(
                    auth_entry(caller@, base58_of(parsed_public_key(encode_utf8(public_key@))->0)),
                ),
                ..old(self)@
            }),
    {
        let key = match parse_public_key(public_key.as_str().as_bytes()) {
            None => {
                return Err(ErrorCode::InvalidPublicKey);
            },
            Some(k) => k,
        };
        let entry = make_auth_entry(caller, key.as_slice());
        self.authorized_keys.remove(entry.as_str());
        assert(self@.authorized_keys =~= old(self)@.authorized_keys.remove(
            auth_entry(caller@, base58_of(key@)),
        ));
        Ok(())
    }

    /// The fee of `coin`, if it is accepted for payment.
    pub fn get_coin_fee(&self, coin: &str) -> (r: Option<u128>)
        ensures
            r == (if self@.coin_fees.contains_key(coin@) {
                Some(self@.coin_fees[coin@])
            } else {
                None
            }),
    {
        match self.coin_fees.get(coin) {
            Some(f) => Some(*f),
            None => None,
        }
    }

    /// Whether `relayer` may relay: always when the allowlist is off.
    pub fn is_relayer_allowed(&self, relayer: &str) -> (r: bool)
        ensures
            r == (!self@.require_relayer_allowlist || self@.relayers.contains(relayer@)),
    {
        !self.require_relayer_allowlist || self.relayers.contains_key(relayer)
    }

    /// The replay counter of `name`.
    pub fn get_nonce(&self, name: &str) -> (r: u64)
        ensures
            r == self@.nonce_of(name@),
    {
        match self.nonces.get(name) {
            Some(n) => *n,
            None => 0,
        }
    }
}

} // verus!
