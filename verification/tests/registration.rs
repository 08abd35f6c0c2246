//! Tests of the registration flow and the locator normalizer.

use xnft::engine::{SimpleConfig, SimpleNftEngine};
use xnft::errors::{DispatchError, Error};
use xnft::location::{AssetId, Junction, Junctions, MultiLocation, VersionedAssetId};
use xnft::pallet::Pallet;
use xnft::traits::{DerivativeWithdrawal, Origin};

const VAULT: u64 = 1000;

fn universal_location() -> Junctions {
    Junctions::from_vec(vec![Junction::GlobalConsensus(1), Junction::Parachain(5)])
}

fn new_pallet() -> Pallet {
    Pallet::new(universal_location(), VAULT)
}

fn new_engine() -> SimpleNftEngine {
    SimpleNftEngine::new(DerivativeWithdrawal::Stash)
}

fn sibling_asset() -> AssetId {
    AssetId::Concrete(MultiLocation::from_parts(
        2,
        Junctions::from_vec(vec![Junction::GlobalConsensus(2)]),
    ))
}

#[test]
fn registration_succeeds_for_foreign_locator() {
    let mut pallet = new_pallet();
    let mut engine = new_engine();
    let class_id = pallet
        .register_foreign_asset::<SimpleConfig>(
            &mut engine,
            &Origin::Root,
            VersionedAssetId::V3(sibling_asset()),
            0,
        )
        .unwrap();
    assert_eq!(class_id, 1);
    assert_eq!(pallet.foreign_asset_to_local_class(&sibling_asset()), Some(class_id));
    assert!(pallet.local_class_to_foreign_asset(class_id).unwrap().eq_id(&sibling_asset()));
}

#[test]
fn registration_rejects_duplicate() {
    let mut pallet = new_pallet();
    let mut engine = new_engine();
    let class_id = pallet
        .register_foreign_asset::<SimpleConfig>(
            &mut engine,
            &Origin::Root,
            VersionedAssetId::V3(sibling_asset()),
            0,
        )
        .unwrap();

    let second = pallet.register_foreign_asset::<SimpleConfig>(
        &mut engine,
        &Origin::Root,
        VersionedAssetId::V3(sibling_asset()),
        0,
    );
    assert_eq!(second, Err(DispatchError::Xnft(Error::AssetAlreadyRegistered)));
    // The registry still holds exactly the first entry.
    assert_eq!(pallet.foreign_asset_to_local_class(&sibling_asset()), Some(class_id));
}

#[test]
fn registration_rejects_local_form() {
    let mut pallet = new_pallet();
    let mut engine = new_engine();

    // Zero ascent outright.
    let local = AssetId::Concrete(MultiLocation::from_parts(
        0,
        Junctions::from_vec(vec![Junction::GeneralIndex(3)]),
    ));
    let r = pallet.register_foreign_asset::<SimpleConfig>(
        &mut engine,
        &Origin::Root,
        VersionedAssetId::V3(local),
        0,
    );
    assert_eq!(r, Err(DispatchError::Xnft(Error::AttemptToRegisterLocalAsset)));

    // One ascent that retraces this chain's own identity normalizes to
    // zero ascent and is rejected too.
    let self_referential = AssetId::Concrete(MultiLocation::from_parts(
        1,
        Junctions::from_vec(vec![
            Junction::Parachain(5),
            Junction::PalletInstance(7),
            Junction::GeneralIndex(42),
        ]),
    ));
    let r = pallet.register_foreign_asset::<SimpleConfig>(
        &mut engine,
        &Origin::Root,
        VersionedAssetId::V3(self_referential),
        0,
    );
    assert_eq!(r, Err(DispatchError::Xnft(Error::AttemptToRegisterLocalAsset)));
}

#[test]
fn registration_rejects_undecodable_version() {
    let mut pallet = new_pallet();
    let mut engine = new_engine();
    let r = pallet.register_foreign_asset::<SimpleConfig>(
        &mut engine,
        &Origin::Root,
        VersionedAssetId::V2(None),
        0,
    );
    assert_eq!(r, Err(DispatchError::Xnft(Error::BadAssetId)));
}

#[test]
fn registration_accepts_convertible_old_version() {
    let mut pallet = new_pallet();
    let mut engine = new_engine();
    let class_id = pallet
        .register_foreign_asset::<SimpleConfig>(
            &mut engine,
            &Origin::Root,
            VersionedAssetId::V2(Some(sibling_asset())),
            0,
        )
        .unwrap();
    assert_eq!(pallet.foreign_asset_to_local_class(&sibling_asset()), Some(class_id));
}

#[test]
fn registration_requires_authorized_origin() {
    let mut pallet = new_pallet();
    let mut engine = new_engine();
    let r = pallet.register_foreign_asset::<SimpleConfig>(
        &mut engine,
        &Origin::Signed(5),
        VersionedAssetId::V3(sibling_asset()),
        0,
    );
    assert_eq!(r, Err(DispatchError::BadOrigin));
    assert_eq!(pallet.foreign_asset_to_local_class(&sibling_asset()), None);
}

#[test]
fn simplify_strips_matching_self_prefix() {
    let pallet = new_pallet();
    // [parents: 1, Chain(5), Pallet(7), Index(42)] retraces this chain's
    // own identity: the ascent and the matching junction both go.
    let location = AssetId::Concrete(MultiLocation::from_parts(
        1,
        Junctions::from_vec(vec![
            Junction::Parachain(5),
            Junction::PalletInstance(7),
            Junction::GeneralIndex(42),
        ]),
    ));
    let simplified = pallet.simplify_asset_id(location);
    let expected = AssetId::Concrete(MultiLocation::from_parts(
        0,
        Junctions::from_vec(vec![Junction::PalletInstance(7), Junction::GeneralIndex(42)]),
    ));
    assert!(simplified.eq_id(&expected));
}

#[test]
fn simplify_strips_junction_by_junction() {
    let pallet = new_pallet();
    let location = AssetId::Concrete(MultiLocation::from_parts(
        2,
        Junctions::from_vec(vec![
            Junction::GlobalConsensus(1),
            Junction::Parachain(5),
            Junction::GeneralIndex(3),
        ]),
    ));
    let simplified = pallet.simplify_asset_id(location);
    let expected = AssetId::Concrete(MultiLocation::from_parts(
        0,
        Junctions::from_vec(vec![Junction::GeneralIndex(3)]),
    ));
    assert!(simplified.eq_id(&expected));
}

#[test]
fn simplify_leaves_foreign_locator_unchanged() {
    let pallet = new_pallet();
    let simplified = pallet.simplify_asset_id(sibling_asset());
    assert!(simplified.eq_id(&sibling_asset()));
}

#[test]
fn simplify_stops_at_first_mismatch() {
    let pallet = new_pallet();
    // The first junction does not retrace Net(1), so nothing is stripped.
    let location = AssetId::Concrete(MultiLocation::from_parts(
        2,
        Junctions::from_vec(vec![Junction::Parachain(5), Junction::GeneralIndex(3)]),
    ));
    let simplified = pallet.simplify_asset_id(location.duplicate());
    assert!(simplified.eq_id(&location));
}

#[test]
fn simplify_without_enough_context_is_identity() {
    let pallet = new_pallet();
    // Three ascents, but the universal location is only two levels deep.
    let location = AssetId::Concrete(MultiLocation::from_parts(
        3,
        Junctions::from_vec(vec![Junction::GlobalConsensus(1)]),
    ));
    let simplified = pallet.simplify_asset_id(location.duplicate());
    assert!(simplified.eq_id(&location));
}

#[test]
fn simplify_is_idempotent_on_examples() {
    let pallet = new_pallet();
    let samples = vec![
        AssetId::Concrete(MultiLocation::from_parts(
            1,
            Junctions::from_vec(vec![Junction::Parachain(5), Junction::GeneralIndex(42)]),
        )),
        AssetId::Concrete(MultiLocation::from_parts(
            2,
            Junctions::from_vec(vec![Junction::GlobalConsensus(1), Junction::Parachain(5)]),
        )),
        sibling_asset(),
        AssetId::Abstract(9),
    ];
    for sample in samples {
        let once = pallet.simplify_asset_id(sample);
        let twice = pallet.simplify_asset_id(once.duplicate());
        assert!(once.eq_id(&twice));
    }
}

#[test]
fn empty_universal_location_never_simplifies() {
    // A chain at the root of the address space has an empty universal
    // location: no locator has a prefix to strip.
    let pallet = Pallet::new(Junctions::here(), VAULT);
    let location = AssetId::Concrete(MultiLocation::from_parts(
        1,
        Junctions::from_vec(vec![Junction::Parachain(5)]),
    ));
    let simplified = pallet.simplify_asset_id(location.duplicate());
    assert!(simplified.eq_id(&location));
}

#[test]
fn abstract_asset_can_be_registered() {
    let mut pallet = new_pallet();
    let mut engine = new_engine();
    let abstract_asset = AssetId::Abstract(77);
    let class_id = pallet
        .register_foreign_asset::<SimpleConfig>(
            &mut engine,
            &Origin::Root,
            VersionedAssetId::V3(abstract_asset.duplicate()),
            0,
        )
        .unwrap();
    assert_eq!(pallet.foreign_asset_to_local_class(&abstract_asset), Some(class_id));
}
