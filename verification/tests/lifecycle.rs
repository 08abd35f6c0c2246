//! End-to-end tests of the derivative lifecycle: deposit, withdraw and
//! transfer against the in-memory engine.

use xnft::engine::{SimpleConfig, SimpleNftEngine, SIMPLE_NFT_PALLET_INSTANCE};
use xnft::location::{AssetId, AssetInstance, Fungibility, Junction, Junctions, MultiAsset,
    MultiLocation, VersionedAssetId};
use xnft::errors::XcmError;
use xnft::pallet::{DerivativeStatus, Event, Pallet};
use xnft::traits::{DerivativeWithdrawal, NftEngine, Origin};

const VAULT: u64 = 1000;
const ALICE: u64 = 1;
const BOB: u64 = 2;

fn universal_location() -> Junctions {
    Junctions::from_vec(vec![Junction::GlobalConsensus(1), Junction::Parachain(5)])
}

fn new_pallet() -> Pallet {
    Pallet::new(universal_location(), VAULT)
}

fn foreign_asset() -> AssetId {
    AssetId::Concrete(MultiLocation::from_parts(
        2,
        Junctions::from_vec(vec![Junction::GlobalConsensus(2)]),
    ))
}

fn account_location(id: u64) -> MultiLocation {
    MultiLocation::from_parts(
        0,
        Junctions::from_vec(vec![Junction::AccountId32 { network: None, id }]),
    )
}

fn nft(asset: AssetId, index: u128) -> MultiAsset {
    MultiAsset { id: asset, fun: Fungibility::NonFungible(AssetInstance::Index(index)) }
}

fn register(pallet: &mut Pallet, engine: &mut SimpleNftEngine) -> u64 {
    pallet
        .register_foreign_asset::<SimpleConfig>(
            engine,
            &Origin::Root,
            VersionedAssetId::V3(foreign_asset()),
            0,
        )
        .unwrap()
}

#[test]
fn concrete_scenario_stash_cycle() {
    // Universal address [Net(1), Chain(5)]; the foreign asset sits two
    // levels up at [parents: 2, Net(2)], so normalization leaves it
    // foreign and registration creates a derivative class.
    let mut pallet = new_pallet();
    let mut engine = SimpleNftEngine::new(DerivativeWithdrawal::Stash);
    let class_id = register(&mut pallet, &mut engine);

    let instance = AssetInstance::Index(42);
    let asset = nft(foreign_asset(), 42);

    // Depositing instance 42 for Alice mints derivative 1.
    pallet
        .deposit_asset::<SimpleConfig>(&mut engine, &asset, &account_location(ALICE))
        .unwrap();
    assert_eq!(
        pallet.foreign_instance_to_derivative_status(class_id, &instance),
        DerivativeStatus::Active(1)
    );
    assert_eq!(engine.owner_of(class_id, 1), Some(ALICE));

    // Withdrawing with the stash policy parks derivative 1 in the vault.
    let returned = pallet
        .withdraw_asset::<SimpleConfig>(&mut engine, &asset, &account_location(ALICE))
        .unwrap();
    assert!(returned.id.eq_id(&foreign_asset()));
    assert!(matches!(returned.fun, Fungibility::NonFungible(AssetInstance::Index(42))));
    assert_eq!(
        pallet.foreign_instance_to_derivative_status(class_id, &instance),
        DerivativeStatus::Stashed(1)
    );
    assert_eq!(engine.owner_of(class_id, 1), Some(VAULT));

    // Redepositing restores the same derivative, now owned by Bob.
    pallet
        .deposit_asset::<SimpleConfig>(&mut engine, &asset, &account_location(BOB))
        .unwrap();
    assert_eq!(
        pallet.foreign_instance_to_derivative_status(class_id, &instance),
        DerivativeStatus::Active(1)
    );
    assert_eq!(engine.owner_of(class_id, 1), Some(BOB));
}

#[test]
fn deposit_records_both_map_directions() {
    let mut pallet = new_pallet();
    let mut engine = SimpleNftEngine::new(DerivativeWithdrawal::Stash);
    let class_id = register(&mut pallet, &mut engine);

    let instance = AssetInstance::Index(7);
    pallet
        .deposit_asset::<SimpleConfig>(&mut engine, &nft(foreign_asset(), 7), &account_location(ALICE))
        .unwrap();

    assert_eq!(
        pallet.foreign_instance_to_derivative_status(class_id, &instance),
        DerivativeStatus::Active(1)
    );
    assert_eq!(pallet.derivative_to_foreign_instance(class_id, 1), Some(instance));
}

#[test]
fn no_double_credit() {
    let mut pallet = new_pallet();
    let mut engine = SimpleNftEngine::new(DerivativeWithdrawal::Stash);
    let class_id = register(&mut pallet, &mut engine);

    let instance = AssetInstance::Index(7);
    let asset = nft(foreign_asset(), 7);
    pallet
        .deposit_asset::<SimpleConfig>(&mut engine, &asset, &account_location(ALICE))
        .unwrap();

    // The second deposit of the same foreign instance must fail, and the
    // stores must be exactly as the first deposit left them.
    let second = pallet.deposit_asset::<SimpleConfig>(&mut engine, &asset, &account_location(BOB));
    assert_eq!(second, Err(XcmError::NotDepositable));
    assert_eq!(
        pallet.foreign_instance_to_derivative_status(class_id, &instance),
        DerivativeStatus::Active(1)
    );
    assert_eq!(pallet.derivative_to_foreign_instance(class_id, 1), Some(instance));
    assert_eq!(engine.owner_of(class_id, 1), Some(ALICE));
}

#[test]
fn burn_terminates_identity() {
    let mut pallet = new_pallet();
    let mut engine = SimpleNftEngine::new(DerivativeWithdrawal::Burned);
    let class_id = register(&mut pallet, &mut engine);

    let instance = AssetInstance::Index(7);
    let asset = nft(foreign_asset(), 7);
    pallet
        .deposit_asset::<SimpleConfig>(&mut engine, &asset, &account_location(ALICE))
        .unwrap();
    assert_eq!(
        pallet.foreign_instance_to_derivative_status(class_id, &instance),
        DerivativeStatus::Active(1)
    );

    // Burning removes both map directions.
    pallet
        .withdraw_asset::<SimpleConfig>(&mut engine, &asset, &account_location(ALICE))
        .unwrap();
    assert_eq!(
        pallet.foreign_instance_to_derivative_status(class_id, &instance),
        DerivativeStatus::NotExists
    );
    assert_eq!(pallet.derivative_to_foreign_instance(class_id, 1), None);
    assert_eq!(engine.owner_of(class_id, 1), None);

    // A new deposit mints a fresh identifier, never reusing the burned one.
    pallet
        .deposit_asset::<SimpleConfig>(&mut engine, &asset, &account_location(ALICE))
        .unwrap();
    assert_eq!(
        pallet.foreign_instance_to_derivative_status(class_id, &instance),
        DerivativeStatus::Active(2)
    );
}

#[test]
fn withdraw_of_stashed_needs_permission() {
    let mut pallet = new_pallet();
    let mut engine = SimpleNftEngine::new(DerivativeWithdrawal::Stash);
    let _class_id = register(&mut pallet, &mut engine);

    let asset = nft(foreign_asset(), 7);
    pallet
        .deposit_asset::<SimpleConfig>(&mut engine, &asset, &account_location(ALICE))
        .unwrap();
    pallet
        .withdraw_asset::<SimpleConfig>(&mut engine, &asset, &account_location(ALICE))
        .unwrap();

    // Nobody owns a stashed derivative, so nobody can withdraw it.
    let again = pallet.withdraw_asset::<SimpleConfig>(&mut engine, &asset, &account_location(ALICE));
    assert_eq!(again.unwrap_err(), XcmError::NoPermission);
}

#[test]
fn withdraw_of_nonexistent_derivative_fails() {
    let mut pallet = new_pallet();
    let mut engine = SimpleNftEngine::new(DerivativeWithdrawal::Stash);
    let _class_id = register(&mut pallet, &mut engine);

    let asset = nft(foreign_asset(), 7);
    let r = pallet.withdraw_asset::<SimpleConfig>(&mut engine, &asset, &account_location(ALICE));
    assert_eq!(r.unwrap_err(), XcmError::InstanceConversionFailed);
}

#[test]
fn withdraw_by_non_holder_is_refused_by_the_engine() {
    let mut pallet = new_pallet();
    let mut engine = SimpleNftEngine::new(DerivativeWithdrawal::Stash);
    let class_id = register(&mut pallet, &mut engine);

    let asset = nft(foreign_asset(), 7);
    pallet
        .deposit_asset::<SimpleConfig>(&mut engine, &asset, &account_location(ALICE))
        .unwrap();

    // Bob does not hold the derivative; the engine's module error is
    // translated to a protocol error.
    let r = pallet.withdraw_asset::<SimpleConfig>(&mut engine, &asset, &account_location(BOB));
    assert_eq!(r.unwrap_err(), XcmError::NoPermission);
    assert_eq!(
        pallet.foreign_instance_to_derivative_status(class_id, &AssetInstance::Index(7)),
        DerivativeStatus::Active(1)
    );
}

#[test]
fn transfer_keeps_derivative_active() {
    let mut pallet = new_pallet();
    let mut engine = SimpleNftEngine::new(DerivativeWithdrawal::Stash);
    let class_id = register(&mut pallet, &mut engine);

    let asset = nft(foreign_asset(), 7);
    pallet
        .deposit_asset::<SimpleConfig>(&mut engine, &asset, &account_location(ALICE))
        .unwrap();

    let returned = pallet
        .transfer_asset::<SimpleConfig>(
            &mut engine,
            &asset,
            &account_location(ALICE),
            &account_location(BOB),
        )
        .unwrap();
    assert!(returned.id.eq_id(&foreign_asset()));
    assert_eq!(
        pallet.foreign_instance_to_derivative_status(class_id, &AssetInstance::Index(7)),
        DerivativeStatus::Active(1)
    );
    assert_eq!(engine.owner_of(class_id, 1), Some(BOB));
}

#[test]
fn transfer_of_stashed_derivative_is_refused() {
    let mut pallet = new_pallet();
    let mut engine = SimpleNftEngine::new(DerivativeWithdrawal::Stash);
    let _class_id = register(&mut pallet, &mut engine);

    let asset = nft(foreign_asset(), 7);
    pallet
        .deposit_asset::<SimpleConfig>(&mut engine, &asset, &account_location(ALICE))
        .unwrap();
    pallet
        .withdraw_asset::<SimpleConfig>(&mut engine, &asset, &account_location(ALICE))
        .unwrap();

    let r = pallet.transfer_asset::<SimpleConfig>(
        &mut engine,
        &asset,
        &account_location(ALICE),
        &account_location(BOB),
    );
    assert_eq!(r.unwrap_err(), XcmError::NoPermission);
}

#[test]
fn local_asset_deposit_withdraw_transfer() {
    let mut pallet = new_pallet();
    let mut engine = SimpleNftEngine::new(DerivativeWithdrawal::Stash);

    // A local class under the configured prefix, with one instance held by
    // the vault.
    let class_id = engine.create_class(VAULT, 0).unwrap();
    let instance_id = engine.mint_derivative(class_id, VAULT).unwrap();
    assert_eq!(class_id, 1);
    assert_eq!(instance_id, 1);

    let local_asset = AssetId::Concrete(MultiLocation::from_parts(
        0,
        Junctions::from_vec(vec![
            Junction::PalletInstance(SIMPLE_NFT_PALLET_INSTANCE),
            Junction::GeneralIndex(class_id as u128),
        ]),
    ));
    let asset = nft(local_asset, instance_id as u128);

    // Deposit: the vault hands the instance to Alice, no bookkeeping.
    pallet
        .deposit_asset::<SimpleConfig>(&mut engine, &asset, &account_location(ALICE))
        .unwrap();
    assert_eq!(engine.owner_of(class_id, instance_id), Some(ALICE));
    assert_eq!(
        pallet.foreign_instance_to_derivative_status(class_id, &AssetInstance::Index(1)),
        DerivativeStatus::NotExists
    );

    // Transfer between two accounts.
    pallet
        .transfer_asset::<SimpleConfig>(
            &mut engine,
            &asset,
            &account_location(ALICE),
            &account_location(BOB),
        )
        .unwrap();
    assert_eq!(engine.owner_of(class_id, instance_id), Some(BOB));

    // Withdraw: custody returns to the vault.
    pallet
        .withdraw_asset::<SimpleConfig>(&mut engine, &asset, &account_location(BOB))
        .unwrap();
    assert_eq!(engine.owner_of(class_id, instance_id), Some(VAULT));
}

#[test]
fn fungible_assets_are_not_handled() {
    let mut pallet = new_pallet();
    let mut engine = SimpleNftEngine::new(DerivativeWithdrawal::Stash);
    let _class_id = register(&mut pallet, &mut engine);

    let asset = MultiAsset { id: foreign_asset(), fun: Fungibility::Fungible(10) };
    let r = pallet.deposit_asset::<SimpleConfig>(&mut engine, &asset, &account_location(ALICE));
    assert_eq!(r, Err(XcmError::AssetNotHandled));
}

#[test]
fn unknown_beneficiary_location_fails() {
    let mut pallet = new_pallet();
    let mut engine = SimpleNftEngine::new(DerivativeWithdrawal::Stash);
    let _class_id = register(&mut pallet, &mut engine);

    let not_an_account = MultiLocation::from_parts(
        0,
        Junctions::from_vec(vec![Junction::Parachain(9)]),
    );
    let r = pallet.deposit_asset::<SimpleConfig>(
        &mut engine,
        &nft(foreign_asset(), 7),
        &not_an_account,
    );
    assert_eq!(r, Err(XcmError::AccountIdConversionFailed));
}

#[test]
fn unregistered_asset_fails_to_resolve() {
    let mut pallet = new_pallet();
    let mut engine = SimpleNftEngine::new(DerivativeWithdrawal::Stash);

    let r = pallet.deposit_asset::<SimpleConfig>(
        &mut engine,
        &nft(foreign_asset(), 7),
        &account_location(ALICE),
    );
    assert_eq!(r, Err(XcmError::AssetIdConversionFailed));
}

#[test]
fn distinct_instance_encodings_are_distinct_keys() {
    let mut pallet = new_pallet();
    let mut engine = SimpleNftEngine::new(DerivativeWithdrawal::Stash);
    let class_id = register(&mut pallet, &mut engine);

    // Index(5) and Array8(5) locate two different foreign instances, so
    // each gets its own derivative.
    let by_index = MultiAsset {
        id: foreign_asset(),
        fun: Fungibility::NonFungible(AssetInstance::Index(5)),
    };
    let by_array = MultiAsset {
        id: foreign_asset(),
        fun: Fungibility::NonFungible(AssetInstance::Array8(5)),
    };
    pallet
        .deposit_asset::<SimpleConfig>(&mut engine, &by_index, &account_location(ALICE))
        .unwrap();
    pallet
        .deposit_asset::<SimpleConfig>(&mut engine, &by_array, &account_location(BOB))
        .unwrap();
    assert_eq!(
        pallet.foreign_instance_to_derivative_status(class_id, &AssetInstance::Index(5)),
        DerivativeStatus::Active(1)
    );
    assert_eq!(
        pallet.foreign_instance_to_derivative_status(class_id, &AssetInstance::Array8(5)),
        DerivativeStatus::Active(2)
    );
    assert_eq!(pallet.derivative_to_foreign_instance(class_id, 1), Some(AssetInstance::Index(5)));
    assert_eq!(pallet.derivative_to_foreign_instance(class_id, 2), Some(AssetInstance::Array8(5)));
}

#[test]
fn deposit_emits_deposited_event() {
    let mut pallet = new_pallet();
    let mut engine = SimpleNftEngine::new(DerivativeWithdrawal::Stash);
    let _class_id = register(&mut pallet, &mut engine);

    pallet
        .deposit_asset::<SimpleConfig>(&mut engine, &nft(foreign_asset(), 7), &account_location(ALICE))
        .unwrap();

    assert_eq!(pallet.events.len(), 2);
    assert!(matches!(pallet.events[0], Event::ForeignAssetRegistered { .. }));
    assert!(matches!(pallet.events[1], Event::Deposited { to: ALICE, .. }));
}
