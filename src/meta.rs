//! The meta-transaction verifier: checks a registration signed by the owner
//! and submitted by a relayer, against the replay counter of the name and
//! the keys allowed to act for the owner.

use vstd::prelude::*;
use vstd::slice::slice_subrange;
use vstd::utf8::encode_utf8;
use crate::admin::{auth_entry, make_auth_entry};
use crate::crypto::{
    base58_decode, base58_decoded, base58_of, ed25519_accepts, ed25519_verify, hex_encode,
    hex_encoding, parse_public_key, parsed_public_key, public_key_layout, sha256, sha256_of,
};
use crate::message::{create_registration_message, registration_message, signature_parts, split_signature};
use crate::registry::{NameRegistry, RegistryView};
use crate::types::{ErrorCode, RegisterWithSigParams};

verus! {

/// Whether the parsed key `key` may act for `owner`: either `owner` is the
/// implicit account named after the key (the hex of its key data), or
/// `owner` has authorized the key in the table.
pub open spec fn key_may_act(reg: RegistryView, owner: Seq<char>, key: Seq<u8>) -> bool {
    ||| owner == hex_encoding(key.subrange(1, 33))
    ||| reg.authorized_keys.contains(auth_entry(owner, base58_of(key)))
}

/// The verdict on the signature string `sig_text` for `p`, bound to the
/// registry identity `registry`: it must read `<base58 signature>:<public
/// key>`, the signature must be 64 bytes and verify over the SHA-256 of the
/// canonical message, and the key must be allowed to act for the owner.
pub open spec fn signature_outcome(reg: RegistryView, registry: Seq<char>, p: RegisterWithSigParams, sig_text: Seq<char>) -> Result<(), ErrorCode> {
    match signature_parts(encode_utf8(sig_text)) {
        None => Err(ErrorCode::InvalidSignature),
        Some(parts) => match base58_decoded(parts.0) {
            None => Err(ErrorCode::InvalidSignature),
            Some(sig) => if sig.len() != 64 {
                Err(ErrorCode::InvalidSignature)
            } else {
                match parsed_public_key(parts.1) {
                    None => Err(ErrorCode::InvalidSignature),
                    Some(key) => if !ed25519_accepts(
                        sig,
                        sha256_of(registration_message(registry, p)),
                        key.subrange(1, 33),
                    ) {
                        Err(ErrorCode::InvalidSignature)
                    } else if key_may_act(reg, p.owner@, key) {
                        Ok(())
                    } else {
                        Err(ErrorCode::KeyNotAuthorized)
                    },
                }
            },
        },
    }
}

/// The nonce `p` must carry: the name's counter, which must still be able
/// to advance.
pub open spec fn nonce_accepted(reg: RegistryView, p: RegisterWithSigParams) -> bool {
    p.nonce == reg.nonce_of(p.name@) && reg.nonce_of(p.name@) < u64::MAX
}

/// The relayer checks: the caller is the declared relayer, and is listed
/// when the allowlist is on.
pub open spec fn relayer_outcome(reg: RegistryView, caller: Seq<char>, p: RegisterWithSigParams) -> Result<(), ErrorCode> {
    if caller != p.relayer@ {
        Err(ErrorCode::Unauthorized)
    } else if reg.require_relayer_allowlist && !reg.relayers.contains(p.relayer@) {
        Err(ErrorCode::Unauthorized)
    } else {
        Ok(())
    }
}

/// The verdict of a verification: deadline, relayer, nonce, then signature.
pub open spec fn verify_outcome(reg: RegistryView, caller: Seq<char>, p: RegisterWithSigParams, sig_text: Seq<char>, now: u64, registry: Seq<char>) -> Result<(), ErrorCode> {
    if now > p.deadline {
        Err(ErrorCode::DeadlineExpired)
    } else if relayer_outcome(reg, caller, p) is Err {
        relayer_outcome(reg, caller, p)
    } else if !nonce_accepted(reg, p) {
        Err(ErrorCode::InvalidNonce)
    } else {
        signature_outcome(reg, registry, p, sig_text)
    }
}

/// The replay state after a verification for `n`: the counter advances by
/// one on acceptance and stays put on rejection.
pub open spec fn nonce_step(before: RegistryView, after: RegistryView, n: Seq<char>, accepted: bool) -> bool {
    if accepted {
        &&& before.nonce_of(n) < u64::MAX
        &&& after.nonces == before.nonces.insert(n, (before.nonce_of(n) + 1) as u64)
    } else {
        after.nonces == before.nonces
    }
}

impl NameRegistry {
    /// Whether the parsed key `key` may act for `owner`.
    pub fn key_may_act(&self, owner: &String, key: &[u8]) -> (r: bool)
        requires
            key@.len() >= 33,
        ensures
            r == key_may_act(self@, owner@, key@),
    {
        let derived = hex_encode(slice_subrange(key, 1, 33));
        if derived == *owner {
            return true;
        }
        let entry = make_auth_entry(owner, key);
        self.authorized_keys.contains_key(entry.as_str())
    }

    /// Checks the signature string of a relayed request; changes nothing.
    pub fn check_signature(&self, params: &RegisterWithSigParams, signature: &String, registry_id: &String) -> (r: Result<(), ErrorCode>)
        ensures
            r == signature_outcome(self@, registry_id@, *params, signature@),
    {
        let parts = match split_signature(signature.as_str()) {
            None => {
                return Err(ErrorCode::InvalidSignature);
            },
            Some(p) => p,
        };
        let sig = match base58_decode(parts.0.as_slice()) {
            None => {
                return Err(ErrorCode::InvalidSignature);
            },
            Some(s) => s,
        };
        if sig.len() != 64 {
            return Err(ErrorCode::InvalidSignature);
        }
        let key = match parse_public_key(parts.1.as_slice()) {
            None => {
                return Err(ErrorCode::InvalidSignature);
            },
            Some(k) => k,
        };
        let message = create_registration_message(registry_id.as_str(), params);
        let hash = sha256(message.as_slice());
        if !ed25519_verify(sig.as_slice(), hash.as_slice(), slice_subrange(key.as_slice(), 1, 33)) {
            return Err(ErrorCode::InvalidSignature);
        }
        if self.key_may_act(&params.owner, key.as_slice()) {
            Ok(())
        } else {
            Err(ErrorCode::KeyNotAuthorized)
        }
    }

    /// The relayer checks of a relayed request; changes nothing.
    pub fn check_relayer(&self, caller: &String, params: &RegisterWithSigParams) -> (r: Result<(), ErrorCode>)
        ensures
            r == relayer_outcome(self@, caller@, *params),
    {
        if *caller != params.relayer {
            return Err(ErrorCode::Unauthorized);
        }
        if self.require_relayer_allowlist && !self.relayers.contains_key(params.relayer.as_str()) {
            return Err(ErrorCode::Unauthorized);
        }
        Ok(())
    }

    /// Whether the request carries the name's current counter, which can
    /// still advance; changes nothing.
    pub fn check_nonce(&self, params: &RegisterWithSigParams) -> (r: bool)
        ensures
            r == nonce_accepted(self@, *params),
    {
        let current = self.get_nonce(params.name.as_str());
        params.nonce == current && current < u64::MAX
    }

    /// Advances the counter of `name` by one.
    pub(crate) fn advance_nonce(&mut self, name: &String)
        requires
            old(self)@.nonce_of(name@) < u64::MAX,
        ensures
            final(self)@ == (RegistryView {
                nonces: old(self)@.nonces.insert(name@, (old(self)@.nonce_of(name@) + 1) as u64),
                ..old(self)@
            }),
            final(self).wf() == old(self).wf(),
    {
        let current = self.get_nonce(name.as_str());
        self.nonces.insert(name.clone(), current + 1);
        assert(self@.records == old(self)@.records && self@.pending == old(self)@.pending);
    }

    /// Verifies a relayed registration request submitted by `caller` at
    /// `now`, and on success consumes its nonce. A rejection changes nothing.
    pub fn verify_meta_tx(&mut self, caller: &String, params: &RegisterWithSigParams, signature: &String, now: u64, registry_id: &String) -> (r: Result<(), ErrorCode>)
        requires
            old(self).wf(),
        ensures
            final(self).wf(),
            old(self)@.keeps_names(final(self)@),
            r == verify_outcome(old(self)@, caller@, *params, signature@, now, registry_id@),
            nonce_step(old(self)@, final(self)@, params.name@, r is Ok),
            r is Err ==> final(self)@ == old(self)@,
            r is Ok ==> final(self)@ == (RegistryView {
                nonces: old(self)@.nonces.insert(params.name@, (old(self)@.nonce_of(params.name@) + 1) as u64),
                ..old(self)@
            }),
    {
        if now > params.deadline {
            return Err(ErrorCode::DeadlineExpired);
        }
        let relayer = self.check_relayer(caller, params);
        if relayer.is_err() {
            return relayer;
        }
        if !self.check_nonce(params) {
            return Err(ErrorCode::InvalidNonce);
        }
        let verdict = self.check_signature(params, signature, registry_id);
        if verdict.is_err() {
            return verdict;
        }
        self.advance_nonce(&params.name);
        Ok(())
    }
}

} // verus!
