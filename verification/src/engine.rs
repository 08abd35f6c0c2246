//! A minimal in-memory NFT engine and a ready-made transactor
//! configuration built on it.  The engine assigns sequential class and
//! instance identifiers starting at 1, tracks which account holds each
//! existing instance, and withdraws derivatives according to a fixed
//! burn-or-stash policy.

use vstd::prelude::*;

use crate::conversion::{IndexAssetInstance, InstanceConvert, InteriorConvert,
    InteriorGeneralIndex, NetworkGet, PrefixGet};
use crate::errors::{DispatchError, DispatchErrorConvert, DispatchErrorsConvert, XcmError};
use crate::location::{AssetId, AssetIdV, AssetInstance, Junction, Junctions, MultiLocation,
    MultiLocationV};
use crate::traits::{Config, DerivativeWithdrawal, NftEngine, Origin};

verus! {

/// The module index under which the in-memory engine reports its errors.
pub const SIMPLE_ENGINE_MODULE_INDEX: u8 = 7;

/// Encoded engine error: the class does not exist.
pub const ENGINE_ERROR_CLASS_NOT_FOUND: u32 = 0;

/// Encoded engine error: the account does not hold the instance.
pub const ENGINE_ERROR_NO_PERMISSION: u32 = 1;

/// Encoded engine error: no identifier is left to assign.
pub const ENGINE_ERROR_NO_AVAILABLE_ID: u32 = 2;

/// Encoded engine error: the instance does not exist.
pub const ENGINE_ERROR_INSTANCE_NOT_FOUND: u32 = 3;

/// Copies a list of (instance, owner) pairs.
fn copy_pairs(v: &Vec<(u64, u64)>) -> (r: Vec<(u64, u64)>)
    ensures
        r@ == v@,
{
    let mut out: Vec<(u64, u64)> = Vec::new();
    let mut i: usize = 0;
    while i < v.len()
        invariant
            i <= v@.len(),
            out@ == v@.subrange(0, i as int),
        decreases v@.len() - i,
    {
        out.push(v[i]);
        assert(out@ =~= v@.subrange(0, i + 1 as int));
        i = i + 1;
    }
    assert(out@ =~= v@);
    out
}

/// The position of `instance_id` in a list of (instance, owner) pairs.
fn find_pair(v: &Vec<(u64, u64)>, instance_id: u64) -> (r: Option<usize>)
    ensures
        r matches Some(p) ==> p < v@.len() && v@[p as int].0 == instance_id,
{
    let mut i: usize = 0;
    while i < v.len()
        invariant
            i <= v@.len(),
        decreases v@.len() - i,
    {
        if v[i].0 == instance_id {
            return Some(i);
        }
        i = i + 1;
    }
    None
}

/// A minimal in-memory NFT engine.
pub struct SimpleNftEngine {
    /// What the engine answers when a derivative is withdrawn.
    policy: DerivativeWithdrawal,
    /// Per class (class `c` at index `c - 1`): how many instances were ever
    /// minted in it.  Identifiers `1..=count` are the ever-assigned ones.
    minted_counts: Vec<u64>,
    /// Per class: the (instance, owner) pairs of the existing instances.
    holdings: Vec<Vec<(u64, u64)>>,
}

impl SimpleNftEngine {
    /// A fresh engine with no classes, answering withdrawals with `policy`.
    pub fn new(policy: DerivativeWithdrawal) -> (r: SimpleNftEngine)
        ensures
            r.spec_classes() == Set::<u64>::empty(),
            forall|c: u64| #[trigger] r.spec_ever_minted(c) == Set::<u64>::empty(),
            r.spec_policy() == policy,
    {
        let r = SimpleNftEngine { policy, minted_counts: Vec::new(), holdings: Vec::new() };
        proof {
            assert(r.spec_classes() =~= Set::<u64>::empty());
            assert forall|c: u64| #[trigger] r.spec_ever_minted(c) == Set::<u64>::empty() by {
                assert(r.spec_ever_minted(c) =~= Set::<u64>::empty());
            }
        }
        r
    }

    /// The configured withdrawal policy.
    pub closed spec fn spec_policy(self) -> DerivativeWithdrawal {
        self.policy
    }

    /// The account currently holding an instance, if it exists.
    pub fn owner_of(&self, class_id: u64, instance_id: u64) -> (r: Option<u64>) {
        if class_id == 0 || class_id > self.holdings.len() as u64 {
            return None;
        }
        let idx = (class_id - 1) as usize;
        match find_pair(&self.holdings[idx], instance_id) {
            Some(p) => Some(self.holdings[idx][p].1),
            None => None,
        }
    }
}

impl NftEngine for SimpleNftEngine {
    closed spec fn spec_classes(&self) -> Set<u64> {
        Set::new(|c: u64| 1 <= c && c <= self.minted_counts@.len())
    }

    closed spec fn spec_ever_minted(&self, class_id: u64) -> Set<u64> {
        if 1 <= class_id && class_id <= self.minted_counts@.len() {
            Set::new(|i: u64| 1 <= i && i <= self.minted_counts@[class_id as int - 1])
        } else {
            Set::empty()
        }
    }

    fn create_class(&mut self, _owner: u64, _init_data: u64) -> (r: Result<u64, DispatchError>) {
        let ghost pre = *self;
        let len = self.minted_counts.len();
        if len as u64 == u64::MAX {
            return Err(
                DispatchError::Module {
                    index: SIMPLE_ENGINE_MODULE_INDEX,
                    error: ENGINE_ERROR_NO_AVAILABLE_ID,
                    message: Some("NoAvailableClassId"),
                },
            );
        }
        let class_id = (len as u64) + 1;
        self.minted_counts.push(0);
        self.holdings.push(Vec::new());
        proof {
            assert(!pre.spec_classes().contains(class_id));
            assert(self.spec_classes() =~= pre.spec_classes().insert(class_id));
            assert forall|c: u64| #[trigger]
                self.spec_ever_minted(c) == pre.spec_ever_minted(c) by {
                assert(self.spec_ever_minted(c) =~= pre.spec_ever_minted(c));
            }
        }
        Ok(class_id)
    }

    fn mint_derivative(&mut self, class_id: u64, to: u64) -> (r: Result<u64, DispatchError>) {
        let ghost pre = *self;
        if class_id == 0 || class_id > self.minted_counts.len() as u64 {
            return Err(
                DispatchError::Module {
                    index: SIMPLE_ENGINE_MODULE_INDEX,
                    error: ENGINE_ERROR_CLASS_NOT_FOUND,
                    message: Some("ClassNotFound"),
                },
            );
        }
        let idx = (class_id - 1) as usize;
        let count = self.minted_counts[idx];
        if count == u64::MAX {
            return Err(
                DispatchError::Module {
                    index: SIMPLE_ENGINE_MODULE_INDEX,
                    error: ENGINE_ERROR_NO_AVAILABLE_ID,
                    message: Some("NoAvailableInstanceId"),
                },
            );
        }
        let instance_id = count + 1;
        self.minted_counts.set(idx, instance_id);
        if idx < self.holdings.len() {
            let mut owners = copy_pairs(&self.holdings[idx]);
            owners.push((instance_id, to));
            self.holdings.set(idx, owners);
        }
        proof {
            assert(!pre.spec_ever_minted(class_id).contains(instance_id));
            assert(self.spec_ever_minted(class_id) =~= pre.spec_ever_minted(class_id).insert(
                instance_id,
            ));
            assert forall|c: u64|
                c != class_id implies #[trigger] self.spec_ever_minted(c)
                == pre.spec_ever_minted(c) by {
                assert(self.spec_ever_minted(c) =~= pre.spec_ever_minted(c));
            }
            assert(self.spec_classes() =~= pre.spec_classes());
        }
        Ok(instance_id)
    }

    fn withdraw_derivative(&mut self, class_id: u64, instance_id: u64, from: u64) -> (r: Result<
        DerivativeWithdrawal,
        DispatchError,
    >) {
        let ghost pre = *self;
        if class_id == 0 || class_id > self.holdings.len() as u64 {
            return Err(
                DispatchError::Module {
                    index: SIMPLE_ENGINE_MODULE_INDEX,
                    error: ENGINE_ERROR_CLASS_NOT_FOUND,
                    message: Some("ClassNotFound"),
                },
            );
        }
        let idx = (class_id - 1) as usize;
        let p = match find_pair(&self.holdings[idx], instance_id) {
            Some(p) => p,
            None => {
                return Err(
                    DispatchError::Module {
                        index: SIMPLE_ENGINE_MODULE_INDEX,
                        error: ENGINE_ERROR_INSTANCE_NOT_FOUND,
                        message: Some("InstanceNotFound"),
                    },
                );
            },
        };
        if self.holdings[idx][p].1 != from {
            return Err(
                DispatchError::Module {
                    index: SIMPLE_ENGINE_MODULE_INDEX,
                    error: ENGINE_ERROR_NO_PERMISSION,
                    message: Some("NoPermission"),
                },
            );
        }
        match self.policy {
            DerivativeWithdrawal::Burned => {
                let mut owners = copy_pairs(&self.holdings[idx]);
                let _ = owners.remove(p);
                self.holdings.set(idx, owners);
                proof {
                    assert(self.spec_classes() =~= pre.spec_classes());
                    assert forall|c: u64| #[trigger]
                        self.spec_ever_minted(c) == pre.spec_ever_minted(c) by {
                        assert(self.spec_ever_minted(c) =~= pre.spec_ever_minted(c));
                    }
                }
                Ok(DerivativeWithdrawal::Burned)
            },
            DerivativeWithdrawal::Stash => Ok(DerivativeWithdrawal::Stash),
        }
    }

    fn transfer_class_instance(
        &mut self,
        class_id: u64,
        instance_id: u64,
        from: u64,
        to: u64,
    ) -> (r: Result<(), DispatchError>) {
        let ghost pre = *self;
        if class_id == 0 || class_id > self.holdings.len() as u64 {
            return Err(
                DispatchError::Module {
                    index: SIMPLE_ENGINE_MODULE_INDEX,
                    error: ENGINE_ERROR_CLASS_NOT_FOUND,
                    message: Some("ClassNotFound"),
                },
            );
        }
        let idx = (class_id - 1) as usize;
        let p = match find_pair(&self.holdings[idx], instance_id) {
            Some(p) => p,
            None => {
                return Err(
                    DispatchError::Module {
                        index: SIMPLE_ENGINE_MODULE_INDEX,
                        error: ENGINE_ERROR_INSTANCE_NOT_FOUND,
                        message: Some("InstanceNotFound"),
                    },
                );
            },
        };
        if self.holdings[idx][p].1 != from {
            return Err(
                DispatchError::Module {
                    index: SIMPLE_ENGINE_MODULE_INDEX,
                    error: ENGINE_ERROR_NO_PERMISSION,
                    message: Some("NoPermission"),
                },
            );
        }
        let mut owners = copy_pairs(&self.holdings[idx]);
        owners.set(p, (instance_id, to));
        self.holdings.set(idx, owners);
        proof {
            assert(self.spec_classes() =~= pre.spec_classes());
            assert forall|c: u64| #[trigger]
                self.spec_ever_minted(c) == pre.spec_ever_minted(c) by {
                assert(self.spec_ever_minted(c) =~= pre.spec_ever_minted(c));
            }
        }
        Ok(())
    }
}

/// Translates the in-memory engine's module errors into protocol errors:
/// a missing class means the asset is unknown, a holder mismatch means no
/// permission, everything else is a generic failure.
pub struct SimpleEngineErrorConvert;

impl DispatchErrorConvert for SimpleEngineErrorConvert {
    open spec fn spec_module_index() -> u8 {
        SIMPLE_ENGINE_MODULE_INDEX
    }

    open spec fn spec_convert(error: u32) -> XcmError {
        if error == ENGINE_ERROR_CLASS_NOT_FOUND {
            XcmError::AssetNotFound
        } else if error == ENGINE_ERROR_NO_PERMISSION {
            XcmError::NoPermission
        } else {
            XcmError::FailedToTransactAsset("simple engine error")
        }
    }

    fn module_index() -> (r: u8) {
        SIMPLE_ENGINE_MODULE_INDEX
    }

    fn convert(error: u32) -> (r: XcmError) {
        if error == ENGINE_ERROR_CLASS_NOT_FOUND {
            XcmError::AssetNotFound
        } else if error == ENGINE_ERROR_NO_PERMISSION {
            XcmError::NoPermission
        } else {
            XcmError::FailedToTransactAsset("simple engine error")
        }
    }
}

/// The interior prefix under which the ready-made configuration's local
/// classes live.
pub struct SimplePrefix;

/// The module instance carrying local classes in the ready-made
/// configuration.
pub const SIMPLE_NFT_PALLET_INSTANCE: u8 = 13;

impl PrefixGet for SimplePrefix {
    open spec fn spec_prefix() -> Seq<Junction> {
        seq![Junction::PalletInstance(SIMPLE_NFT_PALLET_INSTANCE)]
    }

    fn prefix() -> (r: Junctions) {
        let r = Junctions::from_vec(vec![Junction::PalletInstance(SIMPLE_NFT_PALLET_INSTANCE)]);
        proof {
            assert(r@ =~= Self::spec_prefix());
        }
        r
    }
}

/// The network identifier account junctions must name when the ready-made
/// configuration reads a class out of them.
pub const SIMPLE_NETWORK_ID: u32 = 1;

/// The network requirement of the ready-made configuration.
pub struct SimpleNetwork;

impl NetworkGet for SimpleNetwork {
    open spec fn spec_network() -> Option<u32> {
        Some(SIMPLE_NETWORK_ID)
    }

    fn network() -> (r: Option<u32>) {
        Some(SIMPLE_NETWORK_ID)
    }
}

/// A ready-made transactor configuration: the in-memory engine, local
/// classes addressed as `[PalletInstance(13), GeneralIndex(class)]`,
/// numeric instance locators, accounts located by a single `AccountId32`
/// junction, registration allowed to the root origin only, and the
/// engine's error converter.
pub struct SimpleConfig;

impl Config for SimpleConfig {
    type Engine = SimpleNftEngine;

    open spec fn spec_interior_to_class(interior: Seq<Junction>) -> Option<u64> {
        <InteriorGeneralIndex<SimplePrefix> as InteriorConvert>::spec_convert(interior)
    }

    open spec fn spec_instance_to_local(instance: AssetInstance) -> Option<u64> {
        <IndexAssetInstance as InstanceConvert>::spec_convert(instance)
    }

    open spec fn spec_location_to_account(location: MultiLocationV) -> Option<u64> {
        if location.parents == 0 && location.interior.len() == 1 {
            match location.interior[0] {
                Junction::AccountId32 { network: _, id } => Some(id),
                _ => None,
            }
        } else {
            None
        }
    }

    open spec fn spec_register_allowed(origin: Origin, _asset: AssetIdV) -> bool {
        origin is Root
    }

    open spec fn spec_dispatch_error_to_xcm(error: DispatchError) -> XcmError {
        <(SimpleEngineErrorConvert,) as DispatchErrorsConvert>::spec_convert(error)
    }

    fn interior_to_class(interior: &Junctions) -> (r: Option<u64>) {
        <InteriorGeneralIndex<SimplePrefix> as InteriorConvert>::convert(interior)
    }

    fn instance_to_local(instance: &AssetInstance) -> (r: Option<u64>) {
        <IndexAssetInstance as InstanceConvert>::convert(instance)
    }

    fn location_to_account(location: &MultiLocation) -> (r: Option<u64>) {
        if location.parents != 0 || location.interior.len() != 1 {
            return None;
        }
        match location.interior.at(0) {
            Some(junction) => match junction {
                Junction::AccountId32 { network: _, id } => Some(*id),
                _ => None,
            },
            None => None,
        }
    }

    fn ensure_register_origin(origin: &Origin, _asset: &AssetId) -> (r: Result<(), DispatchError>) {
        match origin {
            Origin::Root => Ok(()),
            _ => Err(DispatchError::BadOrigin),
        }
    }

    fn dispatch_error_to_xcm(error: DispatchError) -> (r: XcmError) {
        <(SimpleEngineErrorConvert,) as DispatchErrorsConvert>::convert(error)
    }
}

} // verus!
