//! The transactor: deposit, withdraw and transfer against the derivative
//! status store, delegating mint, burn and custody moves to the NFT engine.

use vstd::prelude::*;

use crate::errors::{DispatchError, XcmError};
use crate::location::{AssetId, AssetIdV, AssetInstance, Fungibility, MultiAsset, MultiLocation};
use crate::pallet::{asset_id_foreign_form, lemma_events_view_push, spec_simplify_asset_id,
    CategorizedClassInstance, ClassInstance, DerivativeKey, DerivativeStatus, Event,
    EventInstanceV, EventV, ForeignAssetInstance, ForeignInstanceKey, Pallet};
use crate::traits::{Config, DerivativeWithdrawal, NftEngine};

verus! {

/// A class instance as the classifier resolves it: either a local instance,
/// or a derivative paired with its current status.
pub type ResolvedInstance = CategorizedClassInstance<
    ClassInstance<u64>,
    ClassInstance<DerivativeStatus>,
>;

/// Neither the transactor state nor the engine changed.
pub open spec fn unchanged_pair<E: NftEngine>(p0: Pallet, p1: Pallet, e0: E, e1: E) -> bool {
    p1 == p0 && e1 == e0
}

/// Everything but the status store, the reverse map and the event log kept.
pub open spec fn frame_kept(pre: Pallet, post: Pallet) -> bool {
    &&& post.foreign_to_class_map() == pre.foreign_to_class_map()
    &&& post.class_to_foreign_map() == pre.class_to_foreign_map()
    &&& post.universal_location@ == pre.universal_location@
    &&& post.vault_account == pre.vault_account
}

/// A deposit that minted a fresh derivative `i` for the foreign instance
/// `f` of class `c`: the engine assigned an identifier it never assigned
/// before, both derivative map directions gained the pair, and the status
/// became active.
pub open spec fn spec_deposit_minted(
    pre: Pallet,
    post: Pallet,
    minted_pre: Set<u64>,
    minted_post: Set<u64>,
    asset: AssetIdV,
    c: u64,
    f: AssetInstance,
    i: u64,
    to: u64,
) -> bool {
    &&& pre.status_of(c, f) is NotExists
    &&& !minted_pre.contains(i)
    &&& minted_post == minted_pre.insert(i)
    &&& post.status_map() == pre.status_map().insert((c, f), DerivativeStatus::Active(i))
    &&& post.reverse_map() == pre.reverse_map().insert((c, i), f)
    &&& frame_kept(pre, post)
    &&& post.events_log() == pre.events_log().push(
        EventV::Deposited {
            class_instance: EventInstanceV::Derivative {
                asset_id: asset,
                asset_instance: f,
                class_id: c,
                instance_id: i,
            },
            to,
        },
    )
}

/// A deposit that reactivated the stashed derivative `i`: the status went
/// from stashed back to active under the same identifier, and the reverse
/// map is untouched.
pub open spec fn spec_deposit_unstashed(
    pre: Pallet,
    post: Pallet,
    asset: AssetIdV,
    c: u64,
    f: AssetInstance,
    i: u64,
    to: u64,
) -> bool {
    &&& pre.status_of(c, f) == DerivativeStatus::Stashed(i)
    &&& post.status_map() == pre.status_map().insert((c, f), DerivativeStatus::Active(i))
    &&& post.reverse_map() == pre.reverse_map()
    &&& frame_kept(pre, post)
    &&& post.events_log() == pre.events_log().push(
        EventV::Deposited {
            class_instance: EventInstanceV::Derivative {
                asset_id: asset,
                asset_instance: f,
                class_id: c,
                instance_id: i,
            },
            to,
        },
    )
}

/// A withdrawal the engine answered with a burn: both derivative map
/// directions lost the pair, so the identity of the derivative ends here.
pub open spec fn spec_withdraw_burned(
    pre: Pallet,
    post: Pallet,
    asset: AssetIdV,
    c: u64,
    f: AssetInstance,
    i: u64,
    from: u64,
) -> bool {
    &&& pre.status_of(c, f) == DerivativeStatus::Active(i)
    &&& post.status_map() == pre.status_map().remove((c, f))
    &&& post.reverse_map() == pre.reverse_map().remove((c, i))
    &&& frame_kept(pre, post)
    &&& post.events_log() == pre.events_log().push(
        EventV::Withdrawn {
            class_instance: EventInstanceV::Derivative {
                asset_id: asset,
                asset_instance: f,
                class_id: c,
                instance_id: i,
            },
            from,
        },
    )
}

/// A withdrawal the engine answered with a stash: the derivative moved to
/// the vault and its status became stashed, under the same identifier.
pub open spec fn spec_withdraw_stashed(
    pre: Pallet,
    post: Pallet,
    asset: AssetIdV,
    c: u64,
    f: AssetInstance,
    i: u64,
    from: u64,
) -> bool {
    &&& pre.status_of(c, f) == DerivativeStatus::Active(i)
    &&& post.status_map() == pre.status_map().insert((c, f), DerivativeStatus::Stashed(i))
    &&& post.reverse_map() == pre.reverse_map()
    &&& frame_kept(pre, post)
    &&& post.events_log() == pre.events_log().push(
        EventV::Withdrawn {
            class_instance: EventInstanceV::Derivative {
                asset_id: asset,
                asset_instance: f,
                class_id: c,
                instance_id: i,
            },
            from,
        },
    )
}

/// A local-asset movement: no derivative bookkeeping, only an event.
pub open spec fn spec_local_moved(pre: Pallet, post: Pallet, ev: EventV) -> bool {
    &&& post.status_map() == pre.status_map()
    &&& post.reverse_map() == pre.reverse_map()
    &&& frame_kept(pre, post)
    &&& post.events_log() == pre.events_log().push(ev)
}

/// The class a locator addresses as a local asset, if any: the locator is a
/// zero-ascent reserve location whose interior the chain's converter
/// understands, and the class is not claimed as backing for a foreign
/// asset.  The locator must already be in canonical form.
pub open spec fn spec_local_class_of<T: Config>(p: Pallet, a: AssetIdV) -> Option<u64> {
    match a {
        AssetIdV::Concrete(loc) => if loc.parents == 0 {
            match T::spec_interior_to_class(loc.interior) {
                Some(class_id) => if !p.class_to_foreign_map().contains_key(class_id) {
                    Some(class_id)
                } else {
                    None
                },
                None => None,
            }
        } else {
            None
        },
        AssetIdV::Abstract(_) => None,
    }
}

/// A state with the same maps as a well-formed one is well-formed.
proof fn lemma_wf_same_maps(pre: Pallet, post: Pallet)
    requires
        pre.wf(),
        post.foreign_to_class_map() == pre.foreign_to_class_map(),
        post.class_to_foreign_map() == pre.class_to_foreign_map(),
        post.status_map() == pre.status_map(),
        post.reverse_map() == pre.reverse_map(),
        post.universal_location@ == pre.universal_location@,
        post.maps_wf(),
    ensures
        post.wf(),
{
    assert forall|a: AssetIdV| #[trigger]
        post.foreign_to_class_map().contains_key(
            a,
        ) implies post.class_to_foreign_map().contains_key(post.foreign_to_class_map()[a])
        && post.class_to_foreign_map()[post.foreign_to_class_map()[a]] == a
        && asset_id_foreign_form(a, post.universal_location@) by {
        assert(pre.foreign_to_class_map().contains_key(a));
    }
    assert forall|c: u64| #[trigger]
        post.class_to_foreign_map().contains_key(
            c,
        ) implies post.foreign_to_class_map().contains_key(post.class_to_foreign_map()[c])
        && post.foreign_to_class_map()[post.class_to_foreign_map()[c]] == c by {
        assert(pre.class_to_foreign_map().contains_key(c));
    }
    assert forall|k: (u64, AssetInstance)| #[trigger]
        post.status_map().contains_key(k) implies !(post.status_map()[k] is NotExists)
        && post.reverse_map().contains_key((k.0, post.status_map()[k].spec_instance_id()))
        && post.reverse_map()[(k.0, post.status_map()[k].spec_instance_id())] == k.1 by {
        assert(pre.status_map().contains_key(k));
    }
    assert forall|k: (u64, u64)| #[trigger]
        post.reverse_map().contains_key(k) implies post.status_map().contains_key(
        (k.0, post.reverse_map()[k]),
    ) && post.status_map()[(k.0, post.reverse_map()[k])].spec_instance_id() == k.1 by {
        assert(pre.reverse_map().contains_key(k));
    }
}

/// Compatibility with the engine survives any step that does not add
/// registry or reverse-map entries and does not change what the engine has
/// assigned.
proof fn lemma_compat_preserved<E: NftEngine>(pre: Pallet, post: Pallet, e_pre: E, e_post: E)
    requires
        pre.compatible_with(e_pre),
        forall|c: u64| #[trigger]
            post.class_to_foreign_map().contains_key(c)
                ==> pre.class_to_foreign_map().contains_key(c),
        forall|k: (u64, u64)| #[trigger]
            post.reverse_map().contains_key(k) ==> pre.reverse_map().contains_key(k),
        e_post.spec_classes() == e_pre.spec_classes(),
        forall|c: u64| #[trigger] e_post.spec_ever_minted(c) == e_pre.spec_ever_minted(c),
    ensures
        post.compatible_with(e_post),
{
    assert forall|c: u64| #[trigger]
        post.class_to_foreign_map().contains_key(c) implies e_post.spec_classes().contains(c) by {
        assert(pre.class_to_foreign_map().contains_key(c));
    }
    assert forall|k: (u64, u64)| #[trigger]
        post.reverse_map().contains_key(k) implies e_post.spec_ever_minted(k.0).contains(k.1) by {
        assert(pre.reverse_map().contains_key(k));
        assert(e_post.spec_ever_minted(k.0) == e_pre.spec_ever_minted(k.0));
    }
}

/// Inserting a freshly minted pair keeps the invariant: the new identifier
/// was never assigned, so the reverse map cannot already know it.
proof fn lemma_deposit_new_wf(pre: Pallet, post: Pallet, c: u64, f: AssetInstance, i: u64)
    requires
        pre.wf(),
        pre.status_of(c, f) is NotExists,
        !pre.reverse_map().contains_key((c, i)),
        post.status_map() == pre.status_map().insert((c, f), DerivativeStatus::Active(i)),
        post.reverse_map() == pre.reverse_map().insert((c, i), f),
        post.foreign_to_class_map() == pre.foreign_to_class_map(),
        post.class_to_foreign_map() == pre.class_to_foreign_map(),
        post.universal_location@ == pre.universal_location@,
        post.maps_wf(),
    ensures
        post.wf(),
{
    assert(!pre.status_map().contains_key((c, f)));
    assert forall|k: (u64, AssetInstance)| #[trigger]
        post.status_map().contains_key(k) implies post.reverse_map().contains_key(
        (k.0, post.status_map()[k].spec_instance_id()),
    ) && post.reverse_map()[(k.0, post.status_map()[k].spec_instance_id())] == k.1 by {
        if k == (c, f) {
        } else {
            assert(pre.status_map().contains_key(k));
            let id = pre.status_map()[k].spec_instance_id();
            assert(pre.reverse_map().contains_key((k.0, id)));
            assert((k.0, id) != (c, i));
        }
    }
    assert forall|k: (u64, u64)| #[trigger]
        post.reverse_map().contains_key(k) implies post.status_map().contains_key(
        (k.0, post.reverse_map()[k]),
    ) && post.status_map()[(k.0, post.reverse_map()[k])].spec_instance_id() == k.1 by {
        if k == (c, i) {
        } else {
            assert(pre.reverse_map().contains_key(k));
            let g = pre.reverse_map()[k];
            assert(pre.status_map().contains_key((k.0, g)));
            assert((k.0, g) != (c, f));
        }
    }
    assert forall|k: (u64, AssetInstance)| #[trigger]
        post.status_map().contains_key(k) implies !(post.status_map()[k] is NotExists) by {
        if k != (c, f) {
            assert(pre.status_map().contains_key(k));
        }
    }
}

/// Replacing a status by another status with the same identifier keeps the
/// invariant: the recorded pairs do not change.
proof fn lemma_status_replace_wf(
    pre: Pallet,
    post: Pallet,
    c: u64,
    f: AssetInstance,
    s: DerivativeStatus,
)
    requires
        pre.wf(),
        pre.status_map().contains_key((c, f)),
        s.spec_instance_id() == pre.status_map()[(c, f)].spec_instance_id(),
        !(s is NotExists),
        post.status_map() == pre.status_map().insert((c, f), s),
        post.reverse_map() == pre.reverse_map(),
        post.foreign_to_class_map() == pre.foreign_to_class_map(),
        post.class_to_foreign_map() == pre.class_to_foreign_map(),
        post.universal_location@ == pre.universal_location@,
        post.maps_wf(),
    ensures
        post.wf(),
{
    assert forall|k: (u64, AssetInstance)| #[trigger]
        post.status_map().contains_key(k) implies post.reverse_map().contains_key(
        (k.0, post.status_map()[k].spec_instance_id()),
    ) && post.reverse_map()[(k.0, post.status_map()[k].spec_instance_id())] == k.1 by {
        if k == (c, f) {
            assert(pre.status_map().contains_key(k));
        } else {
            assert(pre.status_map().contains_key(k));
        }
    }
    assert forall|k: (u64, u64)| #[trigger]
        post.reverse_map().contains_key(k) implies post.status_map().contains_key(
        (k.0, post.reverse_map()[k]),
    ) && post.status_map()[(k.0, post.reverse_map()[k])].spec_instance_id() == k.1 by {
        assert(pre.reverse_map().contains_key(k));
        let g = pre.reverse_map()[k];
        assert(pre.status_map().contains_key((k.0, g)));
        if (k.0, g) == (c, f) {
            assert(post.status_map()[(k.0, g)].spec_instance_id() == pre.status_map()[
                (c, f)
            ].spec_instance_id());
        }
    }
    assert forall|k: (u64, AssetInstance)| #[trigger]
        post.status_map().contains_key(k) implies !(post.status_map()[k] is NotExists) by {
        if k != (c, f) {
            assert(pre.status_map().contains_key(k));
        }
    }
}

/// Removing a status together with its reverse entry keeps the invariant:
/// the bijection loses exactly one pair.
proof fn lemma_status_remove_wf(pre: Pallet, post: Pallet, c: u64, f: AssetInstance, i: u64)
    requires
        pre.wf(),
        pre.status_map().contains_key((c, f)),
        pre.status_map()[(c, f)].spec_instance_id() == i,
        post.status_map() == pre.status_map().remove((c, f)),
        post.reverse_map() == pre.reverse_map().remove((c, i)),
        post.foreign_to_class_map() == pre.foreign_to_class_map(),
        post.class_to_foreign_map() == pre.class_to_foreign_map(),
        post.universal_location@ == pre.universal_location@,
        post.maps_wf(),
    ensures
        post.wf(),
{
    assert(pre.reverse_map().contains_key((c, i)) && pre.reverse_map()[(c, i)] == f);
    assert forall|k: (u64, AssetInstance)| #[trigger]
        post.status_map().contains_key(k) implies post.reverse_map().contains_key(
        (k.0, post.status_map()[k].spec_instance_id()),
    ) && post.reverse_map()[(k.0, post.status_map()[k].spec_instance_id())] == k.1 by {
        assert(pre.status_map().contains_key(k));
        assert(k != (c, f));
        let id = pre.status_map()[k].spec_instance_id();
        assert(pre.reverse_map().contains_key((k.0, id)));
        assert(pre.reverse_map()[(k.0, id)] == k.1);
        if (k.0, id) == (c, i) {
            assert(k.1 == f && k.0 == c);
            assert(pre.status_map()[(c, f)].spec_instance_id() == i);
            assert(false);
        }
    }
    assert forall|k: (u64, u64)| #[trigger]
        post.reverse_map().contains_key(k) implies post.status_map().contains_key(
        (k.0, post.reverse_map()[k]),
    ) && post.status_map()[(k.0, post.reverse_map()[k])].spec_instance_id() == k.1 by {
        assert(pre.reverse_map().contains_key(k));
        assert(k != (c, i));
        let g = pre.reverse_map()[k];
        assert(pre.status_map().contains_key((k.0, g)));
        if (k.0, g) == (c, f) {
            assert(pre.status_map()[(c, f)].spec_instance_id() == k.1);
            assert(k.1 == i && k.0 == c);
            assert(false);
        }
    }
    assert forall|k: (u64, AssetInstance)| #[trigger]
        post.status_map().contains_key(k) implies !(post.status_map()[k] is NotExists) by {
        assert(pre.status_map().contains_key(k));
    }
}

impl Pallet {
    /// Deposits a foreign asset instance: either mints a new derivative or
    /// reactivates the stashed one.  Depositing an already active
    /// derivative fails with [`XcmError::NotDepositable`]: the asset is
    /// already credited on this chain, and nothing is changed.
    pub fn deposit_foreign_asset_instance<T: Config>(
        &mut self,
        engine: &mut T::Engine,
        foreign_asset_instance: ForeignAssetInstance,
        derivative_status: ClassInstance<DerivativeStatus>,
        to: u64,
    ) -> (r: Result<(), XcmError>)
        requires
            old(self).wf(),
            old(self).compatible_with(*old(engine)),
            derivative_status.instance_id == old(self).status_of(
                derivative_status.class_id,
                foreign_asset_instance.asset_instance,
            ),
        ensures
            final(self).wf(),
            final(self).compatible_with(*final(engine)),
            ({
                let c = derivative_status.class_id;
                let f = foreign_asset_instance.asset_instance;
                let a = foreign_asset_instance@.asset_id;
                match r {
                    Ok(()) => match old(self).status_of(c, f) {
                        DerivativeStatus::NotExists => exists|i: u64|
                            spec_deposit_minted(
                                *old(self),
                                *final(self),
                                old(engine).spec_ever_minted(c),
                                final(engine).spec_ever_minted(c),
                                a,
                                c,
                                f,
                                i,
                                to,
                            ),
                        DerivativeStatus::Stashed(i) => spec_deposit_unstashed(
                            *old(self),
                            *final(self),
                            a,
                            c,
                            f,
                            i,
                            to,
                        ),
                        DerivativeStatus::Active(_) => false,
                    },
                    Err(e) => {
                        &&& unchanged_pair(*old(self), *final(self), *old(engine), *final(engine))
                        &&& (old(self).status_of(c, f) is Active ==> e == XcmError::NotDepositable)
                    },
                }
            }),
    {
        let derivative_class_id = derivative_status.class_id;
        let asset_instance = foreign_asset_instance.asset_instance;
        let ghost pre = *self;
        let ghost engine_pre = *engine;

        let deposited_instance_id: u64 = match derivative_status.instance_id {
            DerivativeStatus::NotExists => {
                let instance_id = match engine.mint_derivative(derivative_class_id, to) {
                    Ok(id) => id,
                    Err(e) => {
                        return Err(T::dispatch_error_to_xcm(e));
                    },
                };
                proof {
                    if pre.reverse_map().contains_key((derivative_class_id, instance_id)) {
                        assert(engine_pre.spec_ever_minted(derivative_class_id).contains(
                            instance_id,
                        ));
                    }
                }
                self.derivative_to_foreign.insert(
                    DerivativeKey { class_id: derivative_class_id, instance_id },
                    asset_instance,
                );
                self.derivative_status.insert(
                    ForeignInstanceKey { class_id: derivative_class_id, instance: asset_instance },
                    DerivativeStatus::Active(instance_id),
                );
                proof {
                    lemma_deposit_new_wf(
                        pre,
                        *self,
                        derivative_class_id,
                        asset_instance,
                        instance_id,
                    );
                    assert forall|k: (u64, u64)| #[trigger]
                        self.reverse_map().contains_key(k) implies engine.spec_ever_minted(
                        k.0,
                    ).contains(k.1) by {
                        if k == (derivative_class_id, instance_id) {
                        } else {
                            assert(pre.reverse_map().contains_key(k));
                            assert(engine_pre.spec_ever_minted(k.0).contains(k.1));
                            if k.0 == derivative_class_id {
                                assert(engine.spec_ever_minted(k.0) == engine_pre.spec_ever_minted(
                                    k.0,
                                ).insert(instance_id));
                            } else {
                                assert(engine.spec_ever_minted(k.0) == engine_pre.spec_ever_minted(
                                    k.0,
                                ));
                            }
                        }
                    }
                    assert forall|c: u64| #[trigger]
                        self.class_to_foreign_map().contains_key(
                            c,
                        ) implies engine.spec_classes().contains(c) by {
                        assert(pre.class_to_foreign_map().contains_key(c));
                    }
                    assert(self.compatible_with(*engine));
                }
                instance_id
            },
            DerivativeStatus::Stashed(stashed_instance_id) => {
                match engine.transfer_class_instance(
                    derivative_class_id,
                    stashed_instance_id,
                    self.vault_account,
                    to,
                ) {
                    Ok(()) => {},
                    Err(e) => {
                        return Err(T::dispatch_error_to_xcm(e));
                    },
                }
                self.derivative_status.insert(
                    ForeignInstanceKey { class_id: derivative_class_id, instance: asset_instance },
                    DerivativeStatus::Active(stashed_instance_id),
                );
                proof {
                    lemma_status_replace_wf(
                        pre,
                        *self,
                        derivative_class_id,
                        asset_instance,
                        DerivativeStatus::Active(stashed_instance_id),
                    );
                    lemma_compat_preserved(pre, *self, engine_pre, *engine);
                }
                stashed_instance_id
            },
            DerivativeStatus::Active(_) => {
                return Err(XcmError::NotDepositable);
            },
        };

        let ghost mid = *self;
        let ghost a = foreign_asset_instance@.asset_id;
        let ghost pre_events = self.events@;
        let event = Event::Deposited {
            class_instance: CategorizedClassInstance::Derivative {
                foreign_asset_instance,
                derivative: ClassInstance {
                    class_id: derivative_class_id,
                    instance_id: deposited_instance_id,
                },
            },
            to,
        };
        proof {
            lemma_events_view_push(pre_events, event);
        }
        self.events.push(event);
        proof {
            lemma_wf_same_maps(mid, *self);
            lemma_compat_preserved(mid, *self, *engine, *engine);
            if pre.status_of(derivative_class_id, asset_instance) is NotExists {
                assert(spec_deposit_minted(
                    pre,
                    *self,
                    engine_pre.spec_ever_minted(derivative_class_id),
                    engine.spec_ever_minted(derivative_class_id),
                    a,
                    derivative_class_id,
                    asset_instance,
                    deposited_instance_id,
                    to,
                ));
            }
        }

        Ok(())
    }

    /// Withdraws a foreign asset instance that is currently active.  The
    /// engine chooses: if it burned the derivative, both derivative map
    /// directions are deleted; if it asks for a stash, the derivative is
    /// moved to the vault account and marked stashed.
    pub fn withdraw_foreign_asset_instance<T: Config>(
        &mut self,
        engine: &mut T::Engine,
        foreign_asset_instance: ForeignAssetInstance,
        derivative: ClassInstance<u64>,
        from: u64,
    ) -> (r: Result<(), XcmError>)
        requires
            old(self).wf(),
            old(self).compatible_with(*old(engine)),
            old(self).status_of(derivative.class_id, foreign_asset_instance.asset_instance)
                == DerivativeStatus::Active(derivative.instance_id),
        ensures
            final(self).wf(),
            final(self).compatible_with(*final(engine)),
            ({
                let c = derivative.class_id;
                let f = foreign_asset_instance.asset_instance;
                let a = foreign_asset_instance@.asset_id;
                let i = derivative.instance_id;
                match r {
                    Ok(()) => spec_withdraw_burned(*old(self), *final(self), a, c, f, i, from)
                        || spec_withdraw_stashed(*old(self), *final(self), a, c, f, i, from),
                    Err(_) => unchanged_pair(
                        *old(self),
                        *final(self),
                        *old(engine),
                        *final(engine),
                    ),
                }
            }),
    {
        let derivative_class_id = derivative.class_id;
        let derivative_instance_id = derivative.instance_id;
        let asset_instance = foreign_asset_instance.asset_instance;
        let ghost pre = *self;
        let ghost engine_pre = *engine;

        let derivative_withdrawal = match engine.withdraw_derivative(
            derivative_class_id,
            derivative_instance_id,
            from,
        ) {
            Ok(w) => w,
            Err(e) => {
                return Err(T::dispatch_error_to_xcm(e));
            },
        };

        match derivative_withdrawal {
            DerivativeWithdrawal::Burned => {
                self.derivative_to_foreign.remove(
                    &DerivativeKey {
                        class_id: derivative_class_id,
                        instance_id: derivative_instance_id,
                    },
                );
                self.derivative_status.remove(
                    &ForeignInstanceKey {
                        class_id: derivative_class_id,
                        instance: asset_instance,
                    },
                );
                proof {
                    lemma_status_remove_wf(
                        pre,
                        *self,
                        derivative_class_id,
                        asset_instance,
                        derivative_instance_id,
                    );
                    lemma_compat_preserved(pre, *self, engine_pre, *engine);
                }
            },
            DerivativeWithdrawal::Stash => {
                match engine.transfer_class_instance(
                    derivative_class_id,
                    derivative_instance_id,
                    from,
                    self.vault_account,
                ) {
                    Ok(()) => {},
                    Err(e) => {
                        return Err(T::dispatch_error_to_xcm(e));
                    },
                }
                self.derivative_status.insert(
                    ForeignInstanceKey { class_id: derivative_class_id, instance: asset_instance },
                    DerivativeStatus::Stashed(derivative_instance_id),
                );
                proof {
                    lemma_status_replace_wf(
                        pre,
                        *self,
                        derivative_class_id,
                        asset_instance,
                        DerivativeStatus::Stashed(derivative_instance_id),
                    );
                    lemma_compat_preserved(pre, *self, engine_pre, *engine);
                }
            },
        }

        let ghost mid = *self;
        let ghost pre_events = self.events@;
        let event = Event::Withdrawn {
            class_instance: CategorizedClassInstance::Derivative {
                foreign_asset_instance,
                derivative: ClassInstance {
                    class_id: derivative_class_id,
                    instance_id: derivative_instance_id,
                },
            },
            from,
        };
        proof {
            lemma_events_view_push(pre_events, event);
        }
        self.events.push(event);
        proof {
            lemma_wf_same_maps(mid, *self);
            lemma_compat_preserved(mid, *self, *engine, *engine);
        }

        Ok(())
    }

    /// Deposits a local class instance: the vault hands custody to `to`.
    /// No derivative bookkeeping happens, because the local class is
    /// authoritative.
    pub fn deposit_local_class_instance<T: Config>(
        &mut self,
        engine: &mut T::Engine,
        local_class_instance: ClassInstance<u64>,
        to: u64,
    ) -> (r: Result<(), XcmError>)
        requires
            old(self).wf(),
            old(self).compatible_with(*old(engine)),
        ensures
            final(self).wf(),
            final(self).compatible_with(*final(engine)),
            match r {
                Ok(()) => spec_local_moved(
                    *old(self),
                    *final(self),
                    EventV::Deposited {
                        class_instance: EventInstanceV::Local {
                            class_id: local_class_instance.class_id,
                            instance_id: local_class_instance.instance_id,
                        },
                        to,
                    },
                ),
                Err(_) => unchanged_pair(*old(self), *final(self), *old(engine), *final(engine)),
            },
    {
        let ghost pre = *self;
        let ghost engine_pre = *engine;
        match engine.transfer_class_instance(
            local_class_instance.class_id,
            local_class_instance.instance_id,
            self.vault_account,
            to,
        ) {
            Ok(()) => {},
            Err(e) => {
                return Err(T::dispatch_error_to_xcm(e));
            },
        }
        let ghost pre_events = self.events@;
        let event = Event::Deposited {
            class_instance: CategorizedClassInstance::Local(local_class_instance),
            to,
        };
        proof {
            lemma_events_view_push(pre_events, event);
        }
        self.events.push(event);
        proof {
            lemma_wf_same_maps(pre, *self);
            lemma_compat_preserved(pre, *self, engine_pre, *engine);
        }
        Ok(())
    }

    /// Withdraws a local class instance: `from` hands custody to the vault.
    pub fn withdraw_local_class_instance<T: Config>(
        &mut self,
        engine: &mut T::Engine,
        local_class_instance: ClassInstance<u64>,
        from: u64,
    ) -> (r: Result<(), XcmError>)
        requires
            old(self).wf(),
            old(self).compatible_with(*old(engine)),
        ensures
            final(self).wf(),
            final(self).compatible_with(*final(engine)),
            match r {
                Ok(()) => spec_local_moved(
                    *old(self),
                    *final(self),
                    EventV::Withdrawn {
                        class_instance: EventInstanceV::Local {
                            class_id: local_class_instance.class_id,
                            instance_id: local_class_instance.instance_id,
                        },
                        from,
                    },
                ),
                Err(_) => unchanged_pair(*old(self), *final(self), *old(engine), *final(engine)),
            },
    {
        let ghost pre = *self;
        let ghost engine_pre = *engine;
        match engine.transfer_class_instance(
            local_class_instance.class_id,
            local_class_instance.instance_id,
            from,
            self.vault_account,
        ) {
            Ok(()) => {},
            Err(e) => {
                return Err(T::dispatch_error_to_xcm(e));
            },
        }
        let ghost pre_events = self.events@;
        let event = Event::Withdrawn {
            class_instance: CategorizedClassInstance::Local(local_class_instance),
            from,
        };
        proof {
            lemma_events_view_push(pre_events, event);
        }
        self.events.push(event);
        proof {
            lemma_wf_same_maps(pre, *self);
            lemma_compat_preserved(pre, *self, engine_pre, *engine);
        }
        Ok(())
    }

    /// Returns the class a locator addresses as a local asset, if any.
    /// The `xcm_asset_id` must be simplified before using this function.
    pub fn local_asset_to_class<T: Config>(&self, xcm_asset_id: &AssetId) -> (r: Option<u64>)
        requires
            self.wf(),
        ensures
            r == spec_local_class_of::<T>(*self, xcm_asset_id@),
    {
        let location = match xcm_asset_id {
            AssetId::Concrete(location) => location,
            AssetId::Abstract(_) => {
                return None;
            },
        };
        if location.parents > 0 {
            return None;
        }
        let class_id = match T::interior_to_class(&location.interior) {
            Some(class_id) => class_id,
            None => {
                return None;
            },
        };
        if self.class_to_foreign.contains_key(&class_id) {
            None
        } else {
            Some(class_id)
        }
    }

    /// Resolves an asset and instance locator to the class instance they
    /// denote on this chain: a derivative paired with its current status if
    /// the asset is a registered foreign one, a local class instance
    /// otherwise.  The `xcm_asset_id` must be simplified before using this
    /// function.
    pub fn class_instance<T: Config>(
        &self,
        xcm_asset_id: &AssetId,
        xcm_asset_instance: &AssetInstance,
    ) -> (r: Result<ResolvedInstance, XcmError>)
        requires
            self.wf(),
        ensures
            ({
                let a = xcm_asset_id@;
                let f = *xcm_asset_instance;
                if self.foreign_to_class_map().contains_key(a) {
                    let c = self.foreign_to_class_map()[a];
                    r matches Ok(
                        CategorizedClassInstance::Derivative { foreign_asset_instance, derivative },
                    ) && foreign_asset_instance@.asset_id == a
                        && foreign_asset_instance@.asset_instance == f && derivative == (
                    ClassInstance::<
                        DerivativeStatus,
                    > { class_id: c, instance_id: self.status_of(c, f) })
                } else {
                    match spec_local_class_of::<T>(*self, a) {
                        Some(c) => match T::spec_instance_to_local(f) {
                            Some(i) => r matches Ok(CategorizedClassInstance::Local(l)) && l == (
                            ClassInstance::<u64> { class_id: c, instance_id: i }),
                            None => r == Err::<ResolvedInstance, XcmError>(
                                XcmError::InstanceConversionFailed,
                            ),
                        },
                        None => r == Err::<ResolvedInstance, XcmError>(
                            XcmError::AssetIdConversionFailed,
                        ),
                    }
                }
            }),
    {
        match self.foreign_asset_to_local_class(xcm_asset_id) {
            Some(class_id) => {
                let derivative_status = self.foreign_instance_to_derivative_status(
                    class_id,
                    xcm_asset_instance,
                );
                Ok(
                    CategorizedClassInstance::Derivative {
                        foreign_asset_instance: ForeignAssetInstance {
                            asset_id: xcm_asset_id.duplicate(),
                            asset_instance: *xcm_asset_instance,
                        },
                        derivative: ClassInstance { class_id, instance_id: derivative_status },
                    },
                )
            },
            None => {
                let class_id = match self.local_asset_to_class::<T>(xcm_asset_id) {
                    Some(class_id) => class_id,
                    None => {
                        return Err(XcmError::AssetIdConversionFailed);
                    },
                };
                match T::instance_to_local(xcm_asset_instance) {
                    Some(instance_id) => Ok(
                        CategorizedClassInstance::Local(ClassInstance { class_id, instance_id }),
                    ),
                    None => Err(XcmError::InstanceConversionFailed),
                }
            },
        }
    }

    /// Transfers a resolved class instance between two accounts.  A
    /// derivative must be active; its status does not change, since it
    /// stays active under a different owner.
    pub fn transfer_class_instance<T: Config>(
        &mut self,
        engine: &mut T::Engine,
        class_instance: ResolvedInstance,
        from: u64,
        to: u64,
    ) -> (r: Result<(), XcmError>)
        requires
            old(self).wf(),
            old(self).compatible_with(*old(engine)),
            class_instance matches CategorizedClassInstance::Derivative {
                foreign_asset_instance,
                derivative,
            } ==> derivative.instance_id == old(self).status_of(
                derivative.class_id,
                foreign_asset_instance.asset_instance,
            ),
        ensures
            final(self).wf(),
            final(self).compatible_with(*final(engine)),
            match r {
                Ok(()) => match class_instance {
                    CategorizedClassInstance::Local(ci) => spec_local_moved(
                        *old(self),
                        *final(self),
                        EventV::Transferred {
                            class_instance: EventInstanceV::Local {
                                class_id: ci.class_id,
                                instance_id: ci.instance_id,
                            },
                            from,
                            to,
                        },
                    ),
                    CategorizedClassInstance::Derivative {
                        foreign_asset_instance,
                        derivative,
                    } => {
                        &&& derivative.instance_id is Active
                        &&& spec_local_moved(
                            *old(self),
                            *final(self),
                            EventV::Transferred {
                                class_instance: EventInstanceV::Derivative {
                                    asset_id: foreign_asset_instance@.asset_id,
                                    asset_instance: foreign_asset_instance.asset_instance,
                                    class_id: derivative.class_id,
                                    instance_id: derivative.instance_id.spec_instance_id(),
                                },
                                from,
                                to,
                            },
                        )
                    },
                },
                Err(e) => {
                    &&& unchanged_pair(*old(self), *final(self), *old(engine), *final(engine))
                    &&& (class_instance matches CategorizedClassInstance::Derivative {
                        derivative,
                        ..
                    } ==> {
                        &&& (derivative.instance_id is Stashed ==> e == XcmError::NoPermission)
                        &&& (derivative.instance_id is NotExists ==> e
                            == XcmError::InstanceConversionFailed)
                    })
                },
            },
    {
        let ghost pre = *self;
        let ghost engine_pre = *engine;
        match class_instance {
            CategorizedClassInstance::Local(ci) => {
                match engine.transfer_class_instance(ci.class_id, ci.instance_id, from, to) {
                    Ok(()) => {},
                    Err(e) => {
                        return Err(T::dispatch_error_to_xcm(e));
                    },
                }
                let ghost pre_events = self.events@;
                let event = Event::Transferred {
                    class_instance: CategorizedClassInstance::Local(ci),
                    from,
                    to,
                };
                proof {
                    lemma_events_view_push(pre_events, event);
                }
                self.events.push(event);
                proof {
                    lemma_wf_same_maps(pre, *self);
                    lemma_compat_preserved(pre, *self, engine_pre, *engine);
                }
            },
            CategorizedClassInstance::Derivative { foreign_asset_instance, derivative } => {
                let class_id = derivative.class_id;
                let instance_id = match derivative.instance_id.ensure_active() {
                    Ok(instance_id) => instance_id,
                    Err(e) => {
                        return Err(e);
                    },
                };
                match engine.transfer_class_instance(class_id, instance_id, from, to) {
                    Ok(()) => {},
                    Err(e) => {
                        return Err(T::dispatch_error_to_xcm(e));
                    },
                }
                let ghost pre_events = self.events@;
                let event = Event::Transferred {
                    class_instance: CategorizedClassInstance::Derivative {
                        foreign_asset_instance,
                        derivative: ClassInstance { class_id, instance_id },
                    },
                    from,
                    to,
                };
                proof {
                    lemma_events_view_push(pre_events, event);
                }
                self.events.push(event);
                proof {
                    lemma_wf_same_maps(pre, *self);
                    lemma_compat_preserved(pre, *self, engine_pre, *engine);
                }
            },
        }
        Ok(())
    }

    /// Deposits a resolved class instance to `to`: a local instance is
    /// handed over from the vault, a derivative goes through the status
    /// store.
    pub fn deposit_class_instance<T: Config>(
        &mut self,
        engine: &mut T::Engine,
        class_instance: ResolvedInstance,
        to: u64,
    ) -> (r: Result<(), XcmError>)
        requires
            old(self).wf(),
            old(self).compatible_with(*old(engine)),
            class_instance matches CategorizedClassInstance::Derivative {
                foreign_asset_instance,
                derivative,
            } ==> derivative.instance_id == old(self).status_of(
                derivative.class_id,
                foreign_asset_instance.asset_instance,
            ),
        ensures
            final(self).wf(),
            final(self).compatible_with(*final(engine)),
            match class_instance {
                CategorizedClassInstance::Local(ci) => match r {
                    Ok(()) => spec_local_moved(
                        *old(self),
                        *final(self),
                        EventV::Deposited {
                            class_instance: EventInstanceV::Local {
                                class_id: ci.class_id,
                                instance_id: ci.instance_id,
                            },
                            to,
                        },
                    ),
                    Err(_) => unchanged_pair(
                        *old(self),
                        *final(self),
                        *old(engine),
                        *final(engine),
                    ),
                },
                CategorizedClassInstance::Derivative { foreign_asset_instance, derivative } => ({
                    let c = derivative.class_id;
                    let f = foreign_asset_instance.asset_instance;
                    let a = foreign_asset_instance@.asset_id;
                    match r {
                        Ok(()) => match old(self).status_of(c, f) {
                            DerivativeStatus::NotExists => exists|i: u64|
                                spec_deposit_minted(
                                    *old(self),
                                    *final(self),
                                    old(engine).spec_ever_minted(c),
                                    final(engine).spec_ever_minted(c),
                                    a,
                                    c,
                                    f,
                                    i,
                                    to,
                                ),
                            DerivativeStatus::Stashed(i) => spec_deposit_unstashed(
                                *old(self),
                                *final(self),
                                a,
                                c,
                                f,
                                i,
                                to,
                            ),
                            DerivativeStatus::Active(_) => false,
                        },
                        Err(e) => {
                            &&& unchanged_pair(
                                *old(self),
                                *final(self),
                                *old(engine),
                                *final(engine),
                            )
                            &&& (old(self).status_of(c, f) is Active ==> e
                                == XcmError::NotDepositable)
                        },
                    }
                }),
            },
    {
        match class_instance {
            CategorizedClassInstance::Local(local_class_instance) => self
                .deposit_local_class_instance::<T>(engine, local_class_instance, to),
            CategorizedClassInstance::Derivative { foreign_asset_instance, derivative } => self
                .deposit_foreign_asset_instance::<T>(engine, foreign_asset_instance, derivative, to),
        }
    }

    /// Withdraws a resolved class instance from `from`: a local instance is
    /// handed to the vault, a derivative must be active and goes through
    /// the status store.
    pub fn withdraw_class_instance<T: Config>(
        &mut self,
        engine: &mut T::Engine,
        class_instance: ResolvedInstance,
        from: u64,
    ) -> (r: Result<(), XcmError>)
        requires
            old(self).wf(),
            old(self).compatible_with(*old(engine)),
            class_instance matches CategorizedClassInstance::Derivative {
                foreign_asset_instance,
                derivative,
            } ==> derivative.instance_id == old(self).status_of(
                derivative.class_id,
                foreign_asset_instance.asset_instance,
            ),
        ensures
            final(self).wf(),
            final(self).compatible_with(*final(engine)),
            match class_instance {
                CategorizedClassInstance::Local(ci) => match r {
                    Ok(()) => spec_local_moved(
                        *old(self),
                        *final(self),
                        EventV::Withdrawn {
                            class_instance: EventInstanceV::Local {
                                class_id: ci.class_id,
                                instance_id: ci.instance_id,
                            },
                            from,
                        },
                    ),
                    Err(_) => unchanged_pair(
                        *old(self),
                        *final(self),
                        *old(engine),
                        *final(engine),
                    ),
                },
                CategorizedClassInstance::Derivative { foreign_asset_instance, derivative } => ({
                    let c = derivative.class_id;
                    let f = foreign_asset_instance.asset_instance;
                    let a = foreign_asset_instance@.asset_id;
                    match old(self).status_of(c, f) {
                        DerivativeStatus::Active(i) => match r {
                            Ok(()) => spec_withdraw_burned(*old(self), *final(self), a, c, f, i, from)
                                || spec_withdraw_stashed(*old(self), *final(self), a, c, f, i, from),
                            Err(_) => unchanged_pair(
                                *old(self),
                                *final(self),
                                *old(engine),
                                *final(engine),
                            ),
                        },
                        DerivativeStatus::Stashed(_) => r == Err::<(), XcmError>(
                            XcmError::NoPermission,
                        ) && unchanged_pair(*old(self), *final(self), *old(engine), *final(engine)),
                        DerivativeStatus::NotExists => r == Err::<(), XcmError>(
                            XcmError::InstanceConversionFailed,
                        ) && unchanged_pair(*old(self), *final(self), *old(engine), *final(engine)),
                    }
                }),
            },
    {
        match class_instance {
            CategorizedClassInstance::Local(local_class_instance) => self
                .withdraw_local_class_instance::<T>(engine, local_class_instance, from),
            CategorizedClassInstance::Derivative { foreign_asset_instance, derivative } => {
                let derivative_instance_id = match derivative.instance_id.ensure_active() {
                    Ok(instance_id) => instance_id,
                    Err(e) => {
                        return Err(e);
                    },
                };
                self.withdraw_foreign_asset_instance::<T>(
                    engine,
                    foreign_asset_instance,
                    ClassInstance {
                        class_id: derivative.class_id,
                        instance_id: derivative_instance_id,
                    },
                    from,
                )
            },
        }
    }

    /// Translates a dispatch error through the chain's configured
    /// converter list.
    pub fn dispatch_error_to_xcm_error<T: Config>(error: DispatchError) -> (r: XcmError)
        ensures
            r == T::spec_dispatch_error_to_xcm(error),
    {
        T::dispatch_error_to_xcm(error)
    }

    /// Deposits an asset to the account `who` locates: the inbound half of
    /// an asset transfer instruction.  Exactly one of these holds
    /// afterwards: a fungible asset is refused unhandled; the beneficiary
    /// locator resolves to no account; the asset resolves to no class; a
    /// derivative is minted fresh, reactivated from the vault, or refused
    /// as already credited; or a local instance leaves the vault.  On any
    /// error, nothing has changed.
    pub fn deposit_asset<T: Config>(
        &mut self,
        engine: &mut T::Engine,
        xcm_asset: &MultiAsset,
        who: &MultiLocation,
    ) -> (r: Result<(), XcmError>)
        requires
            old(self).wf(),
            old(self).compatible_with(*old(engine)),
        ensures
            final(self).wf(),
            final(self).compatible_with(*final(engine)),
            ({
                let sid = spec_simplify_asset_id(xcm_asset@.id, old(self).universal_location@);
                match xcm_asset@.fun {
                    Fungibility::Fungible(_) => r == Err::<(), XcmError>(XcmError::AssetNotHandled)
                        && unchanged_pair(*old(self), *final(self), *old(engine), *final(engine)),
                    Fungibility::NonFungible(f) => match T::spec_location_to_account(who@) {
                        None => r == Err::<(), XcmError>(XcmError::AccountIdConversionFailed)
                            && unchanged_pair(
                            *old(self),
                            *final(self),
                            *old(engine),
                            *final(engine),
                        ),
                        Some(to) => if old(self).foreign_to_class_map().contains_key(sid) {
                            let c = old(self).foreign_to_class_map()[sid];
                            match old(self).status_of(c, f) {
                                DerivativeStatus::NotExists => {
                                    &&& (r is Ok ==> exists|i: u64|
                                        spec_deposit_minted(
                                            *old(self),
                                            *final(self),
                                            old(engine).spec_ever_minted(c),
                                            final(engine).spec_ever_minted(c),
                                            sid,
                                            c,
                                            f,
                                            i,
                                            to,
                                        ))
                                    &&& (r is Err ==> unchanged_pair(
                                        *old(self),
                                        *final(self),
                                        *old(engine),
                                        *final(engine),
                                    ))
                                },
                                DerivativeStatus::Stashed(i) => {
                                    &&& (r is Ok ==> spec_deposit_unstashed(
                                        *old(self),
                                        *final(self),
                                        sid,
                                        c,
                                        f,
                                        i,
                                        to,
                                    ))
                                    &&& (r is Err ==> unchanged_pair(
                                        *old(self),
                                        *final(self),
                                        *old(engine),
                                        *final(engine),
                                    ))
                                },
                                DerivativeStatus::Active(_) => r == Err::<(), XcmError>(
                                    XcmError::NotDepositable,
                                ) && unchanged_pair(
                                    *old(self),
                                    *final(self),
                                    *old(engine),
                                    *final(engine),
                                ),
                            }
                        } else {
                            match spec_local_class_of::<T>(*old(self), sid) {
                                Some(c) => match T::spec_instance_to_local(f) {
                                    Some(i) => {
                                        &&& (r is Ok ==> spec_local_moved(
                                            *old(self),
                                            *final(self),
                                            EventV::Deposited {
                                                class_instance: EventInstanceV::Local {
                                                    class_id: c,
                                                    instance_id: i,
                                                },
                                                to,
                                            },
                                        ))
                                        &&& (r is Err ==> unchanged_pair(
                                            *old(self),
                                            *final(self),
                                            *old(engine),
                                            *final(engine),
                                        ))
                                    },
                                    None => r == Err::<(), XcmError>(
                                        XcmError::InstanceConversionFailed,
                                    ) && unchanged_pair(
                                        *old(self),
                                        *final(self),
                                        *old(engine),
                                        *final(engine),
                                    ),
                                },
                                None => r == Err::<(), XcmError>(XcmError::AssetIdConversionFailed)
                                    && unchanged_pair(
                                    *old(self),
                                    *final(self),
                                    *old(engine),
                                    *final(engine),
                                ),
                            }
                        },
                    },
                }
            }),
    {
        let xcm_asset = self.simplify_asset(xcm_asset.duplicate());

        let xcm_asset_instance = match xcm_asset.fun {
            Fungibility::NonFungible(instance) => instance,
            Fungibility::Fungible(_) => {
                return Err(XcmError::AssetNotHandled);
            },
        };

        let to = match T::location_to_account(who) {
            Some(account) => account,
            None => {
                return Err(XcmError::AccountIdConversionFailed);
            },
        };

        let class_instance = match self.class_instance::<T>(&xcm_asset.id, &xcm_asset_instance) {
            Ok(class_instance) => class_instance,
            Err(e) => {
                return Err(e);
            },
        };

        self.deposit_class_instance::<T>(engine, class_instance, to)
    }

    /// Withdraws an asset from the account `who` locates, handing back the
    /// withdrawn asset: the outbound half of an asset transfer instruction.
    /// A derivative must be active; the engine decides between burning it
    /// and stashing it.  On any error, nothing has changed.
    pub fn withdraw_asset<T: Config>(
        &mut self,
        engine: &mut T::Engine,
        xcm_asset: &MultiAsset,
        who: &MultiLocation,
    ) -> (r: Result<MultiAsset, XcmError>)
        requires
            old(self).wf(),
            old(self).compatible_with(*old(engine)),
        ensures
            final(self).wf(),
            final(self).compatible_with(*final(engine)),
            ({
                let sid = spec_simplify_asset_id(xcm_asset@.id, old(self).universal_location@);
                match xcm_asset@.fun {
                    Fungibility::Fungible(_) => r == Err::<MultiAsset, XcmError>(
                        XcmError::AssetNotHandled,
                    ) && unchanged_pair(*old(self), *final(self), *old(engine), *final(engine)),
                    Fungibility::NonFungible(f) => match T::spec_location_to_account(who@) {
                        None => r == Err::<MultiAsset, XcmError>(
                            XcmError::AccountIdConversionFailed,
                        ) && unchanged_pair(*old(self), *final(self), *old(engine), *final(engine)),
                        Some(from) => {
                            &&& (r matches Ok(returned) ==> returned@.id == sid && returned@.fun
                                == Fungibility::NonFungible(f))
                            &&& if old(self).foreign_to_class_map().contains_key(sid) {
                                let c = old(self).foreign_to_class_map()[sid];
                                match old(self).status_of(c, f) {
                                    DerivativeStatus::Active(i) => {
                                        &&& (r is Ok ==> spec_withdraw_burned(
                                            *old(self),
                                            *final(self),
                                            sid,
                                            c,
                                            f,
                                            i,
                                            from,
                                        ) || spec_withdraw_stashed(
                                            *old(self),
                                            *final(self),
                                            sid,
                                            c,
                                            f,
                                            i,
                                            from,
                                        ))
                                        &&& (r is Err ==> unchanged_pair(
                                            *old(self),
                                            *final(self),
                                            *old(engine),
                                            *final(engine),
                                        ))
                                    },
                                    DerivativeStatus::Stashed(_) => r is Err && r->Err_0
                                        == XcmError::NoPermission && unchanged_pair(
                                        *old(self),
                                        *final(self),
                                        *old(engine),
                                        *final(engine),
                                    ),
                                    DerivativeStatus::NotExists => r is Err && r->Err_0
                                        == XcmError::InstanceConversionFailed && unchanged_pair(
                                        *old(self),
                                        *final(self),
                                        *old(engine),
                                        *final(engine),
                                    ),
                                }
                            } else {
                                match spec_local_class_of::<T>(*old(self), sid) {
                                    Some(c) => match T::spec_instance_to_local(f) {
                                        Some(i) => {
                                            &&& (r is Ok ==> spec_local_moved(
                                                *old(self),
                                                *final(self),
                                                EventV::Withdrawn {
                                                    class_instance: EventInstanceV::Local {
                                                        class_id: c,
                                                        instance_id: i,
                                                    },
                                                    from,
                                                },
                                            ))
                                            &&& (r is Err ==> unchanged_pair(
                                                *old(self),
                                                *final(self),
                                                *old(engine),
                                                *final(engine),
                                            ))
                                        },
                                        None => r is Err && r->Err_0
                                            == XcmError::InstanceConversionFailed && unchanged_pair(
                                            *old(self),
                                            *final(self),
                                            *old(engine),
                                            *final(engine),
                                        ),
                                    },
                                    None => r is Err && r->Err_0
                                        == XcmError::AssetIdConversionFailed && unchanged_pair(
                                        *old(self),
                                        *final(self),
                                        *old(engine),
                                        *final(engine),
                                    ),
                                }
                            }
                        },
                    },
                }
            }),
    {
        let xcm_asset = self.simplify_asset(xcm_asset.duplicate());

        let xcm_asset_instance = match xcm_asset.fun {
            Fungibility::NonFungible(instance) => instance,
            Fungibility::Fungible(_) => {
                return Err(XcmError::AssetNotHandled);
            },
        };

        let from = match T::location_to_account(who) {
            Some(account) => account,
            None => {
                return Err(XcmError::AccountIdConversionFailed);
            },
        };

        let class_instance = match self.class_instance::<T>(&xcm_asset.id, &xcm_asset_instance) {
            Ok(class_instance) => class_instance,
            Err(e) => {
                return Err(e);
            },
        };

        match self.withdraw_class_instance::<T>(engine, class_instance, from) {
            Ok(()) => Ok(xcm_asset),
            Err(e) => Err(e),
        }
    }

    /// Transfers an asset between the accounts the two locators resolve
    /// to, handing back the transferred asset.  A derivative must be
    /// active and stays active; no derivative bookkeeping changes.  On any
    /// error, nothing has changed.
    pub fn transfer_asset<T: Config>(
        &mut self,
        engine: &mut T::Engine,
        xcm_asset: &MultiAsset,
        from: &MultiLocation,
        to: &MultiLocation,
    ) -> (r: Result<MultiAsset, XcmError>)
        requires
            old(self).wf(),
            old(self).compatible_with(*old(engine)),
        ensures
            final(self).wf(),
            final(self).compatible_with(*final(engine)),
            ({
                let sid = spec_simplify_asset_id(xcm_asset@.id, old(self).universal_location@);
                match xcm_asset@.fun {
                    Fungibility::Fungible(_) => r == Err::<MultiAsset, XcmError>(
                        XcmError::AssetNotHandled,
                    ) && unchanged_pair(*old(self), *final(self), *old(engine), *final(engine)),
                    Fungibility::NonFungible(f) => match (
                        T::spec_location_to_account(from@),
                        T::spec_location_to_account(to@),
                    ) {
                        (None, _) => r == Err::<MultiAsset, XcmError>(
                            XcmError::AccountIdConversionFailed,
                        ) && unchanged_pair(*old(self), *final(self), *old(engine), *final(engine)),
                        (Some(_), None) => r == Err::<MultiAsset, XcmError>(
                            XcmError::AccountIdConversionFailed,
                        ) && unchanged_pair(*old(self), *final(self), *old(engine), *final(engine)),
                        (Some(from_account), Some(to_account)) => {
                            &&& (r matches Ok(returned) ==> returned@.id == sid && returned@.fun
                                == Fungibility::NonFungible(f))
                            &&& if old(self).foreign_to_class_map().contains_key(sid) {
                                let c = old(self).foreign_to_class_map()[sid];
                                match old(self).status_of(c, f) {
                                    DerivativeStatus::Active(i) => {
                                        &&& (r is Ok ==> spec_local_moved(
                                            *old(self),
                                            *final(self),
                                            EventV::Transferred {
                                                class_instance: EventInstanceV::Derivative {
                                                    asset_id: sid,
                                                    asset_instance: f,
                                                    class_id: c,
                                                    instance_id: i,
                                                },
                                                from: from_account,
                                                to: to_account,
                                            },
                                        ))
                                        &&& (r is Err ==> unchanged_pair(
                                            *old(self),
                                            *final(self),
                                            *old(engine),
                                            *final(engine),
                                        ))
                                    },
                                    DerivativeStatus::Stashed(_) => r is Err && r->Err_0
                                        == XcmError::NoPermission && unchanged_pair(
                                        *old(self),
                                        *final(self),
                                        *old(engine),
                                        *final(engine),
                                    ),
                                    DerivativeStatus::NotExists => r is Err && r->Err_0
                                        == XcmError::InstanceConversionFailed && unchanged_pair(
                                        *old(self),
                                        *final(self),
                                        *old(engine),
                                        *final(engine),
                                    ),
                                }
                            } else {
                                match spec_local_class_of::<T>(*old(self), sid) {
                                    Some(c) => match T::spec_instance_to_local(f) {
                                        Some(i) => {
                                            &&& (r is Ok ==> spec_local_moved(
                                                *old(self),
                                                *final(self),
                                                EventV::Transferred {
                                                    class_instance: EventInstanceV::Local {
                                                        class_id: c,
                                                        instance_id: i,
                                                    },
                                                    from: from_account,
                                                    to: to_account,
                                                },
                                            ))
                                            &&& (r is Err ==> unchanged_pair(
                                                *old(self),
                                                *final(self),
                                                *old(engine),
                                                *final(engine),
                                            ))
                                        },
                                        None => r is Err && r->Err_0
                                            == XcmError::InstanceConversionFailed && unchanged_pair(
                                            *old(self),
                                            *final(self),
                                            *old(engine),
                                            *final(engine),
                                        ),
                                    },
                                    None => r is Err && r->Err_0
                                        == XcmError::AssetIdConversionFailed && unchanged_pair(
                                        *old(self),
                                        *final(self),
                                        *old(engine),
                                        *final(engine),
                                    ),
                                }
                            }
                        },
                    },
                }
            }),
    {
        let xcm_asset = self.simplify_asset(xcm_asset.duplicate());

        let xcm_asset_instance = match xcm_asset.fun {
            Fungibility::NonFungible(instance) => instance,
            Fungibility::Fungible(_) => {
                return Err(XcmError::AssetNotHandled);
            },
        };

        let from_account = match T::location_to_account(from) {
            Some(account) => account,
            None => {
                return Err(XcmError::AccountIdConversionFailed);
            },
        };

        let to_account = match T::location_to_account(to) {
            Some(account) => account,
            None => {
                return Err(XcmError::AccountIdConversionFailed);
            },
        };

        let class_instance = match self.class_instance::<T>(&xcm_asset.id, &xcm_asset_instance) {
            Ok(class_instance) => class_instance,
            Err(e) => {
                return Err(e);
            },
        };

        match self.transfer_class_instance::<T>(engine, class_instance, from_account, to_account) {
            Ok(()) => Ok(xcm_asset),
            Err(e) => Err(e),
        }
    }
}

} // verus!
