//! Properties that span several operations, stated over the registry's view
//! and proved from the operations' own contracts.

use vstd::prelude::*;
use crate::meta::nonce_step;
use crate::orchestrator::{register_outcome, register_with_ft_outcome, register_with_sig_outcome};
use crate::name::valid_name;
use crate::types::{ErrorCode, RegisterWithSigParams};
use crate::registry::RegistryView;

verus! {

/// `run` is a sequence of states, each reached from the one before by an
/// operation of the registry; every mutating operation keeps every record.
pub open spec fn keeps_names_throughout(run: Seq<RegistryView>) -> bool {
    forall|i: int| 0 <= i < run.len() - 1 ==> #[trigger] run[i].keeps_names(run[i + 1])
}

/// Uniqueness of names: once a record for `n` exists, it exists in every
/// later state, `n` is never available again, and so no later registration
/// or creation of `n`, on any path, can succeed.
pub proof fn lemma_name_registered_once(run: Seq<RegistryView>, n: Seq<char>)
    requires
        run.len() > 0,
        run[0].records.contains_key(n),
        keeps_names_throughout(run),
    ensures
        forall|i: int| 0 <= i < run.len() ==> (#[trigger] run[i]).records.contains_key(n) && !run[i].available(n),
        forall|i: int, deposit: u128| 0 <= i < run.len() ==> #[trigger] register_outcome(run[i], n, deposit) is Err,
        valid_name(n) ==> forall|i: int, deposit: u128|
            0 <= i < run.len() ==> #[trigger] register_outcome(run[i], n, deposit) == Err::<(), ErrorCode>(
                ErrorCode::NameTaken,
            ),
        forall|i: int, token: Seq<char>, deposit: u128|
            0 <= i < run.len() ==> #[trigger] register_with_ft_outcome(run[i], n, token, deposit) is Err,
        forall|
            i: int,
            caller: Seq<char>,
            p: RegisterWithSigParams,
            sig: Seq<char>,
            deposit: u128,
            now: u64,
            registry: Seq<char>,
        |
            0 <= i < run.len() && p.name@ == n ==> #[trigger] register_with_sig_outcome(
                run[i],
                caller,
                p,
                sig,
                deposit,
                now,
                registry,
            ) is Err,
    decreases run.len(),
{
    if run.len() > 1 {
        let prefix = run.drop_last();
        assert(keeps_names_throughout(prefix)) by {
            assert forall|i: int| 0 <= i < prefix.len() - 1 implies #[trigger] prefix[i].keeps_names(
                prefix[i + 1],
            ) by {
                assert(run[i].keeps_names(run[i + 1]));
            }
        }
        lemma_name_registered_once(prefix, n);
        let k = run.len() - 2;
        assert(prefix[k].records.contains_key(n));
        assert(run[k].keeps_names(run[k + 1]));
        assert forall|i: int| 0 <= i < run.len() implies (#[trigger] run[i]).records.contains_key(n) by {
            if i < run.len() - 1 {
                assert(prefix[i] == run[i]);
            }
        }
    }
}

/// How many of the verifications for `n` in a run were accepted, where the
/// `i`-th verified a request for `names[i]` with outcome `accepted[i]`.
pub open spec fn accepted_for(names: Seq<Seq<char>>, accepted: Seq<bool>, n: Seq<char>) -> nat
    decreases names.len(),
{
    if names.len() == 0 || accepted.len() == 0 {
        0
    } else {
        accepted_for(names.drop_last(), accepted.drop_last(), n) + if names.last() == n && accepted.last() {
            1nat
        } else {
            0nat
        }
    }
}

/// Nonce monotonicity: starting from a counter of 0 for `n`, after a run of
/// verifications the counter of `n` equals the number of accepted
/// verifications for `n`; rejections, and verifications for other names,
/// leave it alone.
pub proof fn lemma_nonce_counts_acceptances(
    run: Seq<RegistryView>,
    names: Seq<Seq<char>>,
    accepted: Seq<bool>,
    n: Seq<char>,
)
    requires
        run.len() == names.len() + 1,
        names.len() == accepted.len(),
        run[0].nonce_of(n) == 0,
        forall|i: int| 0 <= i < names.len() ==> #[trigger] nonce_step(run[i], run[i + 1], names[i], accepted[i]),
    ensures
        run.last().nonce_of(n) == accepted_for(names, accepted, n),
    decreases names.len(),
{
    if names.len() > 0 {
        let k = names.len() - 1;
        lemma_nonce_counts_acceptances(run.drop_last(), names.drop_last(), accepted.drop_last(), n);
        assert(nonce_step(run[k], run[k + 1], names[k], accepted[k]));
        assert(run.drop_last().last() == run[k]);
    }
}

/// An asset without a configured fee is refused before any transfer: for a
/// valid, available name and no native deposit, a registration paid in it
/// fails with `AssetNotAccepted` (and a refused registration changes
/// nothing and asks for no transfer).
pub proof fn lemma_unaccepted_asset_refused(reg: RegistryView, n: Seq<char>, token: Seq<char>)
    requires
        valid_name(n),
        reg.available(n),
        !reg.coin_fees.contains_key(token),
    ensures
        register_with_ft_outcome(reg, n, token, 0) == Err::<(), ErrorCode>(ErrorCode::AssetNotAccepted),
{
}

/// Transfer semantics: after `owner` hands `n` to another identity
/// `new_owner`, `n` belongs to `new_owner`; if `n` was the primary name of
/// `owner`, `owner` now has none; `new_owner` gets `n` as primary only if
/// it had none, and otherwise keeps its own.
pub proof fn lemma_transfer_semantics(
    before: RegistryView,
    after: RegistryView,
    n: Seq<char>,
    owner: Seq<char>,
    new_owner: Seq<char>,
    now: u64,
)
    requires
        before.records.contains_key(n),
        before.records[n].owner == owner,
        owner != new_owner,
        before.transferred(after, n, owner, new_owner, now),
    ensures
        after.record(n) matches Some(rec) && rec.owner == new_owner,
        before.primary_of(owner) == Some(n) ==> after.primary_of(owner) is None,
        before.primary_of(new_owner) is None ==> after.primary_of(new_owner) == Some(n),
        before.primary_of(new_owner) is Some ==> after.primary_of(new_owner) == before.primary_of(new_owner),
{
}

/// Atomicity under payment failure: when the asset transfer for a pending
/// `n` fails, `n` has no record and neither the records nor the
/// primary-name index changed.
pub proof fn lemma_failed_payment_leaves_no_record(before: RegistryView, after: RegistryView, n: Seq<char>)
    requires
        before.wf(),
        before.pending.contains_key(n),
        before.rolled_back(after, n),
    ensures
        after.record(n) is None,
        after.records == before.records,
        after.primary_names == before.primary_names,
        !after.pending.contains_key(n),
{
}

} // verus!
