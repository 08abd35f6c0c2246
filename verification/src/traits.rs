//! The traits a chain implements to integrate the transactor: the NFT engine
//! that actually keeps classes and instances, and the configuration with the
//! chain's pluggable converters and registration policy.

use vstd::prelude::*;

use crate::errors::{DispatchError, XcmError};
use crate::location::{AssetId, AssetIdV, AssetInstance, Junction, Junctions, MultiLocation,
    MultiLocationV};

verus! {

/// What the engine did with a withdrawn derivative.
#[derive(Clone, Copy, PartialEq, Eq, Structural, Debug)]
pub enum DerivativeWithdrawal {
    /// The engine burned the derivative.
    Burned,
    /// The engine wants the derivative stashed in the vault account.
    Stash,
}

/// The origin on whose behalf an operation is dispatched.
#[derive(Clone, Copy, PartialEq, Eq, Structural, Debug)]
pub enum Origin {
    /// The chain's root origin.
    Root,
    /// A signed account.
    Signed(u64),
    /// An unsigned origin.
    Unsigned,
}

/// The NFT engine of the chain: the backend that keeps asset classes and
/// their instances.  The transactor only relies on the engine assigning
/// class identifiers and instance identifiers that were never handed out
/// before, and on failed calls leaving the engine unchanged — the
/// surrounding execution environment provides rollback for every other
/// partial-failure case.
pub trait NftEngine: Sized {
    /// The classes existing in the engine.
    spec fn spec_classes(&self) -> Set<u64>;

    /// Every instance identifier the engine ever assigned within `class_id`,
    /// whether the instance still exists or was burned.
    spec fn spec_ever_minted(&self, class_id: u64) -> Set<u64>;

    /// Creates a new class owned by `owner`, passing `init_data` through to
    /// the engine's class initialization.
    fn create_class(&mut self, owner: u64, init_data: u64) -> (r: Result<u64, DispatchError>)
        ensures
            match r {
                Ok(class_id) => {
                    &&& !old(self).spec_classes().contains(class_id)
                    &&& final(self).spec_classes() == old(self).spec_classes().insert(class_id)
                    &&& forall|c: u64| #[trigger]
                        final(self).spec_ever_minted(c) == old(self).spec_ever_minted(c)
                },
                Err(_) => *final(self) == *old(self),
            },
    ;

    /// Mints a new instance within the derivative class `class_id`, owned by
    /// `to`, returning an instance identifier never assigned in that class.
    fn mint_derivative(&mut self, class_id: u64, to: u64) -> (r: Result<u64, DispatchError>)
        ensures
            match r {
                Ok(instance_id) => {
                    &&& !old(self).spec_ever_minted(class_id).contains(instance_id)
                    &&& final(self).spec_ever_minted(class_id) == old(self).spec_ever_minted(
                        class_id,
                    ).insert(instance_id)
                    &&& forall|c: u64|
                        c != class_id ==> #[trigger] final(self).spec_ever_minted(c) == old(
                            self,
                        ).spec_ever_minted(c)
                    &&& final(self).spec_classes() == old(self).spec_classes()
                },
                Err(_) => *final(self) == *old(self),
            },
    ;

    /// Withdraws a derivative from `from`.  The engine either burns it, or
    /// asks the caller to stash it; asking to stash changes nothing in the
    /// engine, and the set of ever-assigned identifiers never shrinks.
    fn withdraw_derivative(&mut self, class_id: u64, instance_id: u64, from: u64) -> (r: Result<
        DerivativeWithdrawal,
        DispatchError,
    >)
        ensures
            final(self).spec_classes() == old(self).spec_classes(),
            forall|c: u64| #[trigger]
                final(self).spec_ever_minted(c) == old(self).spec_ever_minted(c),
            r matches Ok(DerivativeWithdrawal::Stash) ==> *final(self) == *old(self),
            r is Err ==> *final(self) == *old(self),
    ;

    /// Transfers a class instance (derivative or local) from `from` to `to`.
    fn transfer_class_instance(
        &mut self,
        class_id: u64,
        instance_id: u64,
        from: u64,
        to: u64,
    ) -> (r: Result<(), DispatchError>)
        ensures
            final(self).spec_classes() == old(self).spec_classes(),
            forall|c: u64| #[trigger]
                final(self).spec_ever_minted(c) == old(self).spec_ever_minted(c),
            r is Err ==> *final(self) == *old(self),
    ;
}

/// The chain-specific configuration of the transactor.
pub trait Config {
    /// The chain's NFT engine.
    type Engine: NftEngine;

    /// The pluggable conversion from a zero-ascent interior path to the
    /// class it addresses locally, if any.
    spec fn spec_interior_to_class(interior: Seq<Junction>) -> Option<u64>;

    /// The pluggable conversion from an instance locator to an engine
    /// instance identifier, used for instances of local classes.
    spec fn spec_instance_to_local(instance: AssetInstance) -> Option<u64>;

    /// The conversion from a locator to an account of this chain.
    spec fn spec_location_to_account(location: MultiLocationV) -> Option<u64>;

    /// Which origins may register which (already normalized) foreign assets.
    spec fn spec_register_allowed(origin: Origin, asset: AssetIdV) -> bool;

    /// The chain's translation of dispatch errors into protocol errors.
    spec fn spec_dispatch_error_to_xcm(error: DispatchError) -> XcmError;

    /// See [`Config::spec_interior_to_class`].
    fn interior_to_class(interior: &Junctions) -> (r: Option<u64>)
        ensures
            r == Self::spec_interior_to_class(interior@),
    ;

    /// See [`Config::spec_instance_to_local`].
    fn instance_to_local(instance: &AssetInstance) -> (r: Option<u64>)
        ensures
            r == Self::spec_instance_to_local(*instance),
    ;

    /// See [`Config::spec_location_to_account`].
    fn location_to_account(location: &MultiLocation) -> (r: Option<u64>)
        ensures
            r == Self::spec_location_to_account(location@),
    ;

    /// Checks that `origin` may register `asset`; rejection is a
    /// [`DispatchError::BadOrigin`].
    fn ensure_register_origin(origin: &Origin, asset: &AssetId) -> (r: Result<(), DispatchError>)
        ensures
            r is Ok <==> Self::spec_register_allowed(*origin, asset@),
            r is Err ==> r == Err::<(), DispatchError>(DispatchError::BadOrigin),
    ;

    /// See [`Config::spec_dispatch_error_to_xcm`].
    fn dispatch_error_to_xcm(error: DispatchError) -> (r: XcmError)
        ensures
            r == Self::spec_dispatch_error_to_xcm(error),
    ;
}

} // verus!
