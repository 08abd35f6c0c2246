//! The laws of the derivative lifecycle, stated over the transition
//! relations the transactor's contracts establish.

use vstd::prelude::*;

use crate::location::{AssetIdV, AssetInstance};
use crate::pallet::{asset_id_foreign_form, is_local_form, DerivativeStatus, Pallet};
use crate::transact_asset::{spec_deposit_minted, spec_deposit_unstashed, spec_withdraw_burned,
    spec_withdraw_stashed};

verus! {

/// Bijection invariant: in every well-formed state and within every class,
/// the pairs (foreign instance, local identifier) recorded by the active
/// or stashed statuses and by the reverse map determine each other
/// exactly, so they form a bijection.
pub proof fn lemma_bijection_invariant(s: Pallet)
    requires
        s.wf(),
    ensures
        forall|c: u64, f: AssetInstance| #[trigger]
            s.status_map().contains_key((c, f)) ==> !(s.status_map()[(c, f)] is NotExists)
                && s.reverse_map().contains_key((c, s.status_map()[(c, f)].spec_instance_id()))
                && s.reverse_map()[(c, s.status_map()[(c, f)].spec_instance_id())] == f,
        forall|c: u64, i: u64| #[trigger]
            s.reverse_map().contains_key((c, i)) ==> s.status_map().contains_key(
                (c, s.reverse_map()[(c, i)]),
            ) && s.status_map()[(c, s.reverse_map()[(c, i)])].spec_instance_id() == i,
{
}

/// Registry pairing: in every well-formed state, both registry directions
/// are mutually inverse — neither a foreign locator nor a derivative class
/// is recorded without the other.
pub proof fn lemma_registry_bijection(s: Pallet)
    requires
        s.wf(),
    ensures
        forall|a: AssetIdV| #[trigger]
            s.foreign_to_class_map().contains_key(a) ==> s.class_to_foreign_map().contains_key(
                s.foreign_to_class_map()[a],
            ) && s.class_to_foreign_map()[s.foreign_to_class_map()[a]] == a,
        forall|c: u64| #[trigger]
            s.class_to_foreign_map().contains_key(c) ==> s.foreign_to_class_map().contains_key(
                s.class_to_foreign_map()[c],
            ) && s.foreign_to_class_map()[s.class_to_foreign_map()[c]] == c,
{
}

/// No double credit: a successful deposit leaves the foreign instance's
/// status active — and the deposit contract returns `NotDepositable` on an
/// active status, changing nothing, so a second deposit without an
/// intervening withdrawal always fails.
pub proof fn lemma_no_double_credit(
    pre: Pallet,
    post: Pallet,
    minted_pre: Set<u64>,
    minted_post: Set<u64>,
    a: AssetIdV,
    c: u64,
    f: AssetInstance,
    i: u64,
    to: u64,
)
    requires
        spec_deposit_minted(pre, post, minted_pre, minted_post, a, c, f, i, to)
            || spec_deposit_unstashed(pre, post, a, c, f, i, to),
    ensures
        post.status_of(c, f) == DerivativeStatus::Active(i),
{
}

/// Round trip: a deposit, a withdrawal the engine answers with a stash,
/// and a new deposit carry one and the same local identifier through every
/// step — the derivative's identity is preserved across stash cycles.
pub proof fn lemma_round_trip(
    s0: Pallet,
    s1: Pallet,
    s2: Pallet,
    s3: Pallet,
    minted0: Set<u64>,
    minted1: Set<u64>,
    a: AssetIdV,
    c: u64,
    f: AssetInstance,
    i: u64,
    j: u64,
    k: u64,
    to1: u64,
    from: u64,
    to2: u64,
)
    requires
        spec_deposit_minted(s0, s1, minted0, minted1, a, c, f, i, to1) || spec_deposit_unstashed(
            s0,
            s1,
            a,
            c,
            f,
            i,
            to1,
        ),
        spec_withdraw_stashed(s1, s2, a, c, f, j, from),
        spec_deposit_unstashed(s2, s3, a, c, f, k, to2),
    ensures
        j == i,
        k == i,
        s2.status_of(c, f) == DerivativeStatus::Stashed(i),
        s3.status_of(c, f) == DerivativeStatus::Active(i),
{
}

/// Burn terminates identity: after a withdrawal the engine answers by
/// burning, no map direction remembers the pair, and a subsequent deposit
/// mints a fresh identifier — never the burned one, because the engine's
/// ever-assigned set keeps it forever.
pub proof fn lemma_burn_terminates_identity(
    s0: Pallet,
    s1: Pallet,
    s2: Pallet,
    s3: Pallet,
    minted0: Set<u64>,
    minted1: Set<u64>,
    minted3: Set<u64>,
    a: AssetIdV,
    c: u64,
    f: AssetInstance,
    i: u64,
    i2: u64,
    to1: u64,
    from: u64,
    to2: u64,
)
    requires
        spec_deposit_minted(s0, s1, minted0, minted1, a, c, f, i, to1),
        spec_withdraw_burned(s1, s2, a, c, f, i, from),
        spec_deposit_minted(s2, s3, minted1, minted3, a, c, f, i2, to2),
    ensures
        s2.status_of(c, f) is NotExists,
        !s2.reverse_map().contains_key((c, i)),
        i2 != i,
{
}

/// Registration records exactly one entry: registering a locator absent
/// from the registry adds it — and the registration contract rejects a
/// locator already present with `AssetAlreadyRegistered`, changing
/// nothing, so a second registration of the same normalized locator
/// always fails and the registry still holds one entry for it.
pub proof fn lemma_register_then_reject(pre: Pallet, post: Pallet, a: AssetIdV, c: u64)
    requires
        pre.wf(),
        !pre.foreign_to_class_map().contains_key(a),
        post.foreign_to_class_map() == pre.foreign_to_class_map().insert(a, c),
    ensures
        post.foreign_to_class_map().contains_key(a),
        post.foreign_to_class_map()[a] == c,
{
}

/// Local/foreign exclusivity: in every well-formed state, every registered
/// locator is normalized and keeps a nonzero ascent, so a locator that
/// normalizes to local form can never have been accepted by registration.
pub proof fn lemma_local_foreign_exclusivity(s: Pallet, a: AssetIdV)
    requires
        s.wf(),
        s.foreign_to_class_map().contains_key(a),
    ensures
        !is_local_form(a),
        asset_id_foreign_form(a, s.universal_location@),
{
}

} // verus!
