//! The registry store: names to records, identities to primary names, and
//! the configuration and replay state the registration paths consult.

use vstd::prelude::*;
use vstd::hash_map::StringHashMap;
use crate::fees::BPS_DENOMINATOR;
use crate::types::{ErrorCode, Event, PendingRegistration, Record, RecordView};

verus! {

/// The referrer rate, in basis points, of a new registry.
pub const DEFAULT_REFERRER_BPS: u16 = 500;

/// The registry's whole state.
pub struct NameRegistry {
    /// The administrator.
    pub owner: String,
    /// An administrator named by the current one and not yet accepted.
    pub pending_owner: Option<String>,
    /// Where registration fees go.
    pub treasury: String,
    /// The fee in the native unit.
    pub registration_fee: u128,
    /// The referrer's cut of a relayed registration, in basis points.
    pub referrer_bps: u16,
    /// When set, only listed relayers may relay.
    pub require_relayer_allowlist: bool,
    /// Name to record.
    pub records: StringHashMap<Record>,
    /// Identity to primary name.
    pub primary_names: StringHashMap<String>,
    /// Asset to fee; an asset without an entry is not accepted.
    pub coin_fees: StringHashMap<u128>,
    /// The relayer allowlist.
    pub relayers: StringHashMap<bool>,
    /// Name to the number of relayed registrations verified for it.
    pub nonces: StringHashMap<u64>,
    /// The keys `<identity>:<base58 key>` an identity has authorized.
    pub authorized_keys: StringHashMap<bool>,
    /// Names reserved while their asset payment settles.
    pub pending: StringHashMap<PendingRegistration>,
}

/// The mathematical value of a [`NameRegistry`].
pub ghost struct RegistryView {
    pub owner: Seq<char>,
    pub pending_owner: Option<Seq<char>>,
    pub treasury: Seq<char>,
    pub registration_fee: u128,
    pub referrer_bps: u16,
    pub require_relayer_allowlist: bool,
    pub records: Map<Seq<char>, RecordView>,
    pub primary_names: Map<Seq<char>, Seq<char>>,
    pub coin_fees: Map<Seq<char>, u128>,
    pub relayers: Set<Seq<char>>,
    pub nonces: Map<Seq<char>, u64>,
    pub authorized_keys: Set<Seq<char>>,
    pub pending: Map<Seq<char>, PendingRegistration>,
}

/// An optional string, as characters.
pub open spec fn opt_view(o: Option<String>) -> Option<Seq<char>> {
    match o {
        Some(s) => Some(s@),
        None => None,
    }
}

impl View for NameRegistry {
    type V = RegistryView;

    open spec fn view(&self) -> RegistryView {
        RegistryView {
            owner: self.owner@,
            pending_owner: opt_view(self.pending_owner),
            treasury: self.treasury@,
            registration_fee: self.registration_fee,
            referrer_bps: self.referrer_bps,
            require_relayer_allowlist: self.require_relayer_allowlist,
            records: self.records@.map_values(|r: Record| r@),
            primary_names: self.primary_names@.map_values(|s: String| s@),
            coin_fees: self.coin_fees@,
            relayers: self.relayers@.dom(),
            nonces: self.nonces@,
            authorized_keys: self.authorized_keys@.dom(),
            pending: self.pending@,
        }
    }
}

impl RegistryView {
    /// The record of `n`, if registered.
    pub open spec fn record(self, n: Seq<char>) -> Option<RecordView> {
        if self.records.contains_key(n) {
            Some(self.records[n])
        } else {
            None
        }
    }

    /// The primary name of `o`, if any.
    pub open spec fn primary_of(self, o: Seq<char>) -> Option<Seq<char>> {
        if self.primary_names.contains_key(o) {
            Some(self.primary_names[o])
        } else {
            None
        }
    }

    /// The replay counter of `n`: 0 until a relayed registration is verified.
    pub open spec fn nonce_of(self, n: Seq<char>) -> u64 {
        if self.nonces.contains_key(n) {
            self.nonces[n]
        } else {
            0
        }
    }

    /// `n` can be claimed: neither registered nor reserved.
    pub open spec fn available(self, n: Seq<char>) -> bool {
        !self.records.contains_key(n) && !self.pending.contains_key(n)
    }

    /// The primary-name index after `o` registers `n`: set only if `o` has none.
    pub open spec fn primaries_after_claim(self, o: Seq<char>, n: Seq<char>) -> Map<Seq<char>, Seq<char>> {
        if self.primary_names.contains_key(o) {
            self.primary_names
        } else {
            self.primary_names.insert(o, n)
        }
    }

    /// The primary-name index with `n` cleared as the primary of `from`.
    pub open spec fn primaries_without(self, n: Seq<char>, from: Seq<char>) -> Map<Seq<char>, Seq<char>> {
        if self.primary_of(from) == Some(n) {
            self.primary_names.remove(from)
        } else {
            self.primary_names
        }
    }

    /// The primary-name index after `n` passes from `from` to `to`: `from`
    /// loses it as primary, and `to` gains it only if it had none.
    pub open spec fn primaries_after_transfer(self, n: Seq<char>, from: Seq<char>, to: Seq<char>) -> Map<Seq<char>, Seq<char>> {
        let cleared = self.primaries_without(n, from);
        if cleared.contains_key(to) {
            cleared
        } else {
            cleared.insert(to, n)
        }
    }

    /// The invariant: the referrer rate is at most 100%, and no name is
    /// both registered and reserved.
    pub open spec fn wf(self) -> bool {
        &&& self.referrer_bps <= BPS_DENOMINATOR
        &&& forall|n: Seq<char>| #[trigger] self.pending.contains_key(n) ==> !self.records.contains_key(n)
    }

    /// `after` is `self` once `n` has passed from `from` to `to` at `now`.
    pub open spec fn transferred(self, after: RegistryView, n: Seq<char>, from: Seq<char>, to: Seq<char>, now: u64) -> bool {
        after == (RegistryView {
            records: self.records.insert(n, RecordView { owner: to, updated_at: now, ..self.records[n] }),
            primary_names: self.primaries_after_transfer(n, from, to),
            ..self
        })
    }

    /// `after` is `self` once the pending payment for `n` has failed: the
    /// reservation is gone and nothing else changed.
    pub open spec fn rolled_back(self, after: RegistryView, n: Seq<char>) -> bool {
        after == (RegistryView { pending: self.pending.remove(n), ..self })
    }

    /// `later` keeps every record of `self`: names are never released.
    pub open spec fn keeps_names(self, later: RegistryView) -> bool {
        forall|n: Seq<char>| self.records.contains_key(n) ==> #[trigger] later.records.contains_key(n)
    }
}

impl NameRegistry {
    /// The invariant of [`RegistryView::wf`], on the registry's value.
    pub open spec fn wf(&self) -> bool {
        self@.wf()
    }

    /// A registry administered by `owner`, paying fees to `treasury`, with a
    /// native fee of `registration_fee`, a 5% referrer rate and the relayer
    /// allowlist off.
    pub fn new(owner: String, treasury: String, registration_fee: u128) -> (r: NameRegistry)
        ensures
            r.wf(),
            r@ == (RegistryView {
                owner: owner@,
                pending_owner: None,
                treasury: treasury@,
                registration_fee,
                referrer_bps: DEFAULT_REFERRER_BPS,
                require_relayer_allowlist: false,
                records: Map::empty(),
                primary_names: Map::empty(),
                coin_fees: Map::empty(),
                relayers: Set::empty(),
                nonces: Map::empty(),
                authorized_keys: Set::empty(),
                pending: Map::empty(),
            }),
    {
        let r = NameRegistry {
            owner,
            pending_owner: None,
            treasury,
            registration_fee,
            referrer_bps: DEFAULT_REFERRER_BPS,
            require_relayer_allowlist: false,
            records: StringHashMap::new(),
            primary_names: StringHashMap::new(),
            coin_fees: StringHashMap::new(),
            relayers: StringHashMap::new(),
            nonces: StringHashMap::new(),
            authorized_keys: StringHashMap::new(),
            pending: StringHashMap::new(),
        };
        assert(r@.records =~= Map::empty());
        assert(r@.primary_names =~= Map::empty());
        assert(r@.relayers =~= Set::empty());
        assert(r@.authorized_keys =~= Set::empty());
        r
    }

    /// Like [`NameRegistry::new`], with the referrer rate given; refuses a
    /// rate above 10000 basis points.
    pub fn initialize(owner: String, treasury: String, registration_fee: u128, referrer_bps: u16) -> (r: Result<NameRegistry, ErrorCode>)
        ensures
            referrer_bps > BPS_DENOMINATOR <==> r == Err::<NameRegistry, ErrorCode>(ErrorCode::InvalidReferrerBps),
            referrer_bps <= BPS_DENOMINATOR ==> r is Ok,
            r matches Ok(reg) ==> reg.wf() && reg@ == (RegistryView {
                owner: owner@,
                pending_owner: None,
                treasury: treasury@,
                registration_fee,
                referrer_bps,
                require_relayer_allowlist: false,
                records: Map::empty(),
                primary_names: Map::empty(),
                coin_fees: Map::empty(),
                relayers: Set::empty(),
                nonces: Map::empty(),
                authorized_keys: Set::empty(),
                pending: Map::empty(),
            }),
    {
        if referrer_bps > BPS_DENOMINATOR {
            return Err(ErrorCode::InvalidReferrerBps);
        }
        let mut reg = NameRegistry::new(owner, treasury, registration_fee);
        reg.referrer_bps = referrer_bps;
        Ok(reg)
    }
}

} // verus!
