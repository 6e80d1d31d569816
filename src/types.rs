//! The registry's data: records, signed requests, payouts, events and errors.

use vstd::prelude::*;

verus! {

/// Why an operation was refused. A refused operation changes nothing.
#[derive(Clone, Copy, Debug, PartialEq, Eq, Structural)]
pub enum ErrorCode {
    /// The name breaks the name rule.
    InvalidName,
    /// The name is registered already, or reserved by a pending payment.
    NameTaken,
    /// No record, or no pending payment, for the name.
    NotFound,
    /// The caller may not perform the operation.
    Unauthorized,
    /// The amount paid is not the configured fee.
    InsufficientFee,
    /// The signed request's deadline has passed.
    DeadlineExpired,
    /// The signed request's nonce is not the name's current counter.
    InvalidNonce,
    /// The signature is malformed or does not verify.
    InvalidSignature,
    /// The signing key may not act for the owner.
    KeyNotAuthorized,
    /// The asset has no configured fee.
    AssetNotAccepted,
    /// The asset transfer reported failure; nothing was registered.
    PaymentFailed,
    /// A referrer rate above 10000 basis points.
    InvalidReferrerBps,
    /// An empty identity where one is required.
    InvalidAccount,
    /// A native deposit came with a registration paid in an asset.
    NativeDepositNotAllowed,
    /// The public key text does not parse.
    InvalidPublicKey,
}

/// One registered name.
#[derive(Clone, Debug, PartialEq, Eq)]
pub struct Record {
    /// The identity in control of the name.
    pub owner: String,
    /// The identity the name points to.
    pub resolved: String,
    /// When the record last changed, in milliseconds.
    pub updated_at: u64,
}

/// The mathematical value of a [`Record`].
pub ghost struct RecordView {
    pub owner: Seq<char>,
    pub resolved: Seq<char>,
    pub updated_at: u64,
}

impl View for Record {
    type V = RecordView;

    open spec fn view(&self) -> RecordView {
        RecordView { owner: self.owner@, resolved: self.resolved@, updated_at: self.updated_at }
    }
}

impl Record {
    /// A copy of the record.
    pub fn duplicate(&self) -> (r: Record)
        ensures
            r == *self,
    {
        Record {
            owner: self.owner.clone(),
            resolved: self.resolved.clone(),
            updated_at: self.updated_at,
        }
    }
}

/// A registration signed by the eventual owner and submitted by a relayer.
#[derive(Clone, Debug, PartialEq, Eq)]
pub struct RegisterWithSigParams {
    pub name: String,
    pub owner: String,
    pub relayer: String,
    /// `None` pays in the native unit; `Some(asset)` pays in that asset.
    pub currency: Option<String>,
    pub amount: u128,
    /// The last moment, in milliseconds, at which the request is accepted.
    pub deadline: u64,
    pub nonce: u64,
}

/// A transfer that the host must carry out.
///
/// With `asset == None` it moves `amount` of the native unit, paid in by
/// `from` with the call, to `to`; with `Some(asset)` it asks the asset to
/// move `amount` from `from` to `to`.
#[derive(Clone, Debug, PartialEq, Eq)]
pub struct Payout {
    pub asset: Option<String>,
    pub from: String,
    pub to: String,
    pub amount: u128,
}

/// A domain event: an observable record of what an operation did.
#[derive(Clone, Debug, PartialEq, Eq)]
pub enum Event {
    Registered { name: String, owner: String, payer: String, amount: u128 },
    FeePaid {
        name: String,
        payer: String,
        currency: Option<String>,
        total: u128,
        referrer: Option<String>,
        referrer_amount: u128,
        treasury_amount: u128,
    },
    PrimaryNameSet { owner: String, name: String },
    OwnershipTransferred { name: String, old_owner: String, new_owner: String },
    ResolvedUpdated { name: String, owner: String, resolved: String },
}

/// What a successful operation asks of the host: transfers to perform and
/// events to publish.
#[derive(Clone, Debug)]
pub struct Effects {
    pub payouts: Vec<Payout>,
    pub events: Vec<Event>,
}

/// A registration waiting for its asset transfer to settle. The name is
/// reserved meanwhile.
#[derive(Clone, Debug)]
pub struct PendingRegistration {
    pub owner: String,
    pub payer: String,
    pub asset: String,
    pub total: u128,
    pub referrer: Option<String>,
    pub referrer_amount: u128,
    pub treasury_amount: u128,
    pub timestamp: u64,
}

impl PendingRegistration {
    /// A copy of the pending registration.
    pub fn duplicate(&self) -> (r: PendingRegistration)
        ensures
            r == *self,
    {
        PendingRegistration {
            owner: self.owner.clone(),
            payer: self.payer.clone(),
            asset: self.asset.clone(),
            total: self.total,
            referrer: match &self.referrer {
                Some(x) => Some(x.clone()),
                None => None,
            },
            referrer_amount: self.referrer_amount,
            treasury_amount: self.treasury_amount,
            timestamp: self.timestamp,
        }
    }
}

} // verus!
