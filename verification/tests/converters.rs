//! Tests of the pluggable converters, the identifier newtypes and the
//! dispatch-error translation.

use xnft::conversion::{Array16AssetInstance, Array4AssetInstance, Array8AssetInstance,
    IndexAssetInstance, InstanceConvert, InteriorConvert, InteriorAccountId32,
    InteriorAccountKey20, InteriorGeneralIndex};
use xnft::engine::{SimpleConfig, SimpleNetwork, SimplePrefix, ENGINE_ERROR_CLASS_NOT_FOUND,
    ENGINE_ERROR_NO_AVAILABLE_ID, ENGINE_ERROR_NO_PERMISSION, SIMPLE_ENGINE_MODULE_INDEX,
    SIMPLE_NETWORK_ID, SIMPLE_NFT_PALLET_INSTANCE};
use xnft::errors::{DispatchError, Error, XcmError};
use xnft::location::{AssetInstance, Junction, Junctions};
use xnft::misc::{AccountId32CollectionId, AccountKey20CollectionId, Array32AssetInstance,
    GeneralIndexCollectionId, GeneralKey32CollectionId, InstanceConversionError,
    JunctionConversionError};
use xnft::pallet::Pallet;

fn class_path(class: u128) -> Junctions {
    Junctions::from_vec(vec![
        Junction::PalletInstance(SIMPLE_NFT_PALLET_INSTANCE),
        Junction::GeneralIndex(class),
    ])
}

#[test]
fn interior_general_index_converts_under_prefix() {
    let r = <InteriorGeneralIndex<SimplePrefix> as InteriorConvert>::convert(&class_path(9));
    assert_eq!(r, Some(9));
}

#[test]
fn interior_general_index_rejects_wrong_prefix() {
    let wrong = Junctions::from_vec(vec![
        Junction::PalletInstance(99),
        Junction::GeneralIndex(9),
    ]);
    let r = <InteriorGeneralIndex<SimplePrefix> as InteriorConvert>::convert(&wrong);
    assert_eq!(r, None);
}

#[test]
fn interior_general_index_rejects_wrong_junction() {
    let wrong = Junctions::from_vec(vec![
        Junction::PalletInstance(SIMPLE_NFT_PALLET_INSTANCE),
        Junction::Parachain(9),
    ]);
    let r = <InteriorGeneralIndex<SimplePrefix> as InteriorConvert>::convert(&wrong);
    assert_eq!(r, None);
}

#[test]
fn interior_general_index_rejects_oversized_index() {
    let too_big = Junctions::from_vec(vec![
        Junction::PalletInstance(SIMPLE_NFT_PALLET_INSTANCE),
        Junction::GeneralIndex(u128::from(u64::MAX) + 1),
    ]);
    let r = <InteriorGeneralIndex<SimplePrefix> as InteriorConvert>::convert(&too_big);
    assert_eq!(r, None);
}

#[test]
fn interior_general_index_round_trips() {
    let back = <InteriorGeneralIndex<SimplePrefix> as InteriorConvert>::convert_back(9).unwrap();
    assert!(back.eq_junctions(&class_path(9)));
    let forward = <InteriorGeneralIndex<SimplePrefix> as InteriorConvert>::convert(&back);
    assert_eq!(forward, Some(9));
}

#[test]
fn instance_converters_accept_matching_variants() {
    assert_eq!(
        <IndexAssetInstance as InstanceConvert>::convert(&AssetInstance::Index(5)),
        Some(5)
    );
    assert_eq!(
        <Array4AssetInstance as InstanceConvert>::convert(&AssetInstance::Array4(5)),
        Some(5)
    );
    assert_eq!(
        <Array8AssetInstance as InstanceConvert>::convert(&AssetInstance::Array8(5)),
        Some(5)
    );
    assert_eq!(
        <Array16AssetInstance as InstanceConvert>::convert(&AssetInstance::Array16(5)),
        Some(5)
    );
}

#[test]
fn instance_converters_reject_mismatches() {
    assert_eq!(
        <IndexAssetInstance as InstanceConvert>::convert(&AssetInstance::Array8(5)),
        None
    );
    assert_eq!(
        <IndexAssetInstance as InstanceConvert>::convert(
            &AssetInstance::Index(u128::from(u64::MAX) + 1)
        ),
        None
    );
    assert_eq!(
        <Array4AssetInstance as InstanceConvert>::convert_back(u64::from(u32::MAX) + 1),
        None
    );
}

#[test]
fn instance_converters_round_trip() {
    let back = <IndexAssetInstance as InstanceConvert>::convert_back(5).unwrap();
    assert_eq!(back, AssetInstance::Index(5));
    let back = <Array4AssetInstance as InstanceConvert>::convert_back(5).unwrap();
    assert_eq!(back, AssetInstance::Array4(5));
}

#[test]
fn interior_account_junctions_convert_with_matching_network() {
    let key20_path = Junctions::from_vec(vec![
        Junction::PalletInstance(SIMPLE_NFT_PALLET_INSTANCE),
        Junction::AccountKey20 { network: Some(SIMPLE_NETWORK_ID), key: 6 },
    ]);
    let r = <InteriorAccountKey20<SimplePrefix, SimpleNetwork> as InteriorConvert>::convert(
        &key20_path,
    );
    assert_eq!(r, Some(6));

    let wrong_network = Junctions::from_vec(vec![
        Junction::PalletInstance(SIMPLE_NFT_PALLET_INSTANCE),
        Junction::AccountKey20 { network: Some(SIMPLE_NETWORK_ID + 1), key: 6 },
    ]);
    let r = <InteriorAccountKey20<SimplePrefix, SimpleNetwork> as InteriorConvert>::convert(
        &wrong_network,
    );
    assert_eq!(r, None);

    let id32_path = Junctions::from_vec(vec![
        Junction::PalletInstance(SIMPLE_NFT_PALLET_INSTANCE),
        Junction::AccountId32 { network: Some(SIMPLE_NETWORK_ID), id: 8 },
    ]);
    let r = <InteriorAccountId32<SimplePrefix, SimpleNetwork> as InteriorConvert>::convert(
        &id32_path,
    );
    assert_eq!(r, Some(8));

    let back = <InteriorAccountId32<SimplePrefix, SimpleNetwork> as InteriorConvert>::convert_back(
        8,
    )
    .unwrap();
    assert!(back.eq_junctions(&id32_path));
}

#[test]
fn account_collection_ids_check_the_network() {
    let junction = Junction::AccountKey20 { network: Some(SIMPLE_NETWORK_ID), key: 6 };
    assert_eq!(
        AccountKey20CollectionId::try_from_junction::<SimpleNetwork>(&junction).map(|c| c.0),
        Ok(6)
    );
    let wrong = Junction::AccountKey20 { network: None, key: 6 };
    assert_eq!(
        AccountKey20CollectionId::try_from_junction::<SimpleNetwork>(&wrong),
        Err(JunctionConversionError::InvalidJunctionVariant)
    );

    let junction = Junction::AccountId32 { network: Some(SIMPLE_NETWORK_ID), id: 9 };
    assert_eq!(
        AccountId32CollectionId::try_from_junction::<SimpleNetwork>(&junction).map(|c| c.0),
        Ok(9)
    );
    assert_eq!(AccountId32CollectionId::from_id(4).0, 4);
}

#[test]
fn general_index_collection_id_from_junction() {
    assert_eq!(
        GeneralIndexCollectionId::try_from_junction(&Junction::GeneralIndex(5)),
        Ok(GeneralIndexCollectionId(5))
    );
    assert_eq!(
        GeneralIndexCollectionId::try_from_junction(
            &Junction::GeneralIndex(u128::from(u64::MAX) + 1)
        ),
        Err(JunctionConversionError::InnerError)
    );
    assert_eq!(
        GeneralIndexCollectionId::try_from_junction(&Junction::Parachain(5)),
        Err(JunctionConversionError::InvalidJunctionVariant)
    );
}

#[test]
fn general_key_collection_id_requires_full_length() {
    assert_eq!(
        GeneralKey32CollectionId::try_from_junction(
            &Junction::GeneralKey { length: 32, data: 8 }
        ),
        Ok(GeneralKey32CollectionId(8))
    );
    assert_eq!(
        GeneralKey32CollectionId::try_from_junction(
            &Junction::GeneralKey { length: 16, data: 8 }
        ),
        Err(JunctionConversionError::InvalidJunctionVariant)
    );
}

#[test]
fn array_instance_newtypes_check_variants() {
    assert_eq!(
        Array32AssetInstance::try_from_instance(&AssetInstance::Array32(6)),
        Ok(Array32AssetInstance(6))
    );
    assert_eq!(
        Array32AssetInstance::try_from_instance(&AssetInstance::Index(6)),
        Err(InstanceConversionError::InvalidInstanceVariant)
    );
}

#[test]
fn engine_errors_translate_to_protocol_errors() {
    let class_not_found = DispatchError::Module {
        index: SIMPLE_ENGINE_MODULE_INDEX,
        error: ENGINE_ERROR_CLASS_NOT_FOUND,
        message: Some("ClassNotFound"),
    };
    assert_eq!(
        Pallet::dispatch_error_to_xcm_error::<SimpleConfig>(class_not_found),
        XcmError::AssetNotFound
    );

    let no_permission = DispatchError::Module {
        index: SIMPLE_ENGINE_MODULE_INDEX,
        error: ENGINE_ERROR_NO_PERMISSION,
        message: Some("NoPermission"),
    };
    assert_eq!(
        Pallet::dispatch_error_to_xcm_error::<SimpleConfig>(no_permission),
        XcmError::NoPermission
    );

    // An engine error without a specific translation falls back to the
    // generic failure.
    let exhausted = DispatchError::Module {
        index: SIMPLE_ENGINE_MODULE_INDEX,
        error: ENGINE_ERROR_NO_AVAILABLE_ID,
        message: Some("NoAvailableInstanceId"),
    };
    assert_eq!(
        Pallet::dispatch_error_to_xcm_error::<SimpleConfig>(exhausted),
        XcmError::FailedToTransactAsset("simple engine error")
    );
}

#[test]
fn foreign_module_errors_fall_back_to_their_message() {
    let other = DispatchError::Module { index: 99, error: 3, message: Some("boom") };
    assert_eq!(
        Pallet::dispatch_error_to_xcm_error::<SimpleConfig>(other),
        XcmError::FailedToTransactAsset("boom")
    );

    let anonymous = DispatchError::Module { index: 99, error: 3, message: None };
    assert_eq!(
        Pallet::dispatch_error_to_xcm_error::<SimpleConfig>(anonymous),
        XcmError::FailedToTransactAsset("Unknown module error")
    );
}

#[test]
fn bad_origin_keeps_its_meaning() {
    assert_eq!(
        Pallet::dispatch_error_to_xcm_error::<SimpleConfig>(DispatchError::BadOrigin),
        XcmError::BadOrigin
    );
    assert_eq!(
        Pallet::dispatch_error_to_xcm_error::<SimpleConfig>(
            DispatchError::Xnft(Error::AssetAlreadyRegistered)
        ),
        XcmError::FailedToTransactAsset("xnft error")
    );
}

#[test]
fn junctions_push_respects_capacity() {
    let mut path = Junctions::from_vec(vec![
        Junction::Parachain(1),
        Junction::Parachain(2),
        Junction::Parachain(3),
        Junction::Parachain(4),
        Junction::Parachain(5),
        Junction::Parachain(6),
        Junction::Parachain(7),
    ]);
    assert!(path.push(Junction::Parachain(8)).is_ok());
    assert_eq!(path.push(Junction::Parachain(9)), Err(Junction::Parachain(9)));
    assert_eq!(path.len(), 8);
}
