//! Identifier newtypes built from single locator segments, for integrating
//! the transactor with an engine that keys collections and tokens by plain
//! identifiers.

use vstd::prelude::*;

use crate::conversion::NetworkGet;
use crate::location::{AssetInstance, Junction};

verus! {

/// An error during the conversion of a [`Junction`] to a collection
/// identifier.
#[derive(Clone, Copy, PartialEq, Eq, Structural, Debug)]
pub enum JunctionConversionError {
    /// The junction's payload does not fit the identifier type.
    InnerError,
    /// The supplied junction variant is not an expected one.
    InvalidJunctionVariant,
}

/// A collection identifier read from a [`Junction::GeneralIndex`].
#[derive(Clone, Copy, PartialEq, Eq, Structural, Debug)]
pub struct GeneralIndexCollectionId(pub u64);

impl GeneralIndexCollectionId {
    /// Reads the identifier out of a general-index junction.
    pub fn try_from_junction(junction: &Junction) -> (r: Result<Self, JunctionConversionError>)
        ensures
            match *junction {
                Junction::GeneralIndex(index) => if index <= u64::MAX {
                    r == Ok::<Self, JunctionConversionError>(GeneralIndexCollectionId(index as u64))
                } else {
                    r == Err::<Self, JunctionConversionError>(JunctionConversionError::InnerError)
                },
                _ => r == Err::<Self, JunctionConversionError>(
                    JunctionConversionError::InvalidJunctionVariant,
                ),
            },
    {
        match junction {
            Junction::GeneralIndex(index) => if *index <= u64::MAX as u128 {
                Ok(GeneralIndexCollectionId(*index as u64))
            } else {
                Err(JunctionConversionError::InnerError)
            },
            _ => Err(JunctionConversionError::InvalidJunctionVariant),
        }
    }
}

/// A collection identifier read from a [`Junction::AccountKey20`] of the
/// configured network.
#[derive(Clone, Copy, PartialEq, Eq, Structural, Debug)]
pub struct AccountKey20CollectionId(pub u64);

impl AccountKey20CollectionId {
    /// Wraps a plain identifier.
    pub fn from_id(id: u64) -> (r: Self)
        ensures
            r.0 == id,
    {
        AccountKey20CollectionId(id)
    }

    /// Reads the identifier out of a 20-byte account junction whose network
    /// matches the configured one.
    pub fn try_from_junction<N: NetworkGet>(junction: &Junction) -> (r: Result<
        Self,
        JunctionConversionError,
    >)
        ensures
            match *junction {
                Junction::AccountKey20 { network, key } => if network == N::spec_network() {
                    r matches Ok(c) && c.0 == key
                } else {
                    r == Err::<Self, JunctionConversionError>(
                        JunctionConversionError::InvalidJunctionVariant,
                    )
                },
                _ => r == Err::<Self, JunctionConversionError>(
                    JunctionConversionError::InvalidJunctionVariant,
                ),
            },
    {
        match junction {
            Junction::AccountKey20 { network, key } => {
                let required = N::network();
                let same = match (network, &required) {
                    (Some(x), Some(y)) => *x == *y,
                    (None, None) => true,
                    _ => false,
                };
                if same {
                    Ok(AccountKey20CollectionId(*key))
                } else {
                    Err(JunctionConversionError::InvalidJunctionVariant)
                }
            },
            _ => Err(JunctionConversionError::InvalidJunctionVariant),
        }
    }
}

/// A collection identifier read from a [`Junction::AccountId32`] of the
/// configured network.
#[derive(Clone, Copy, PartialEq, Eq, Structural, Debug)]
pub struct AccountId32CollectionId(pub u64);

impl AccountId32CollectionId {
    /// Wraps a plain identifier.
    pub fn from_id(id: u64) -> (r: Self)
        ensures
            r.0 == id,
    {
        AccountId32CollectionId(id)
    }

    /// Reads the identifier out of a 32-byte account junction whose network
    /// matches the configured one.
    pub fn try_from_junction<N: NetworkGet>(junction: &Junction) -> (r: Result<
        Self,
        JunctionConversionError,
    >)
        ensures
            match *junction {
                Junction::AccountId32 { network, id } => if network == N::spec_network() {
                    r matches Ok(c) && c.0 == id
                } else {
                    r == Err::<Self, JunctionConversionError>(
                        JunctionConversionError::InvalidJunctionVariant,
                    )
                },
                _ => r == Err::<Self, JunctionConversionError>(
                    JunctionConversionError::InvalidJunctionVariant,
                ),
            },
    {
        match junction {
            Junction::AccountId32 { network, id } => {
                let required = N::network();
                let same = match (network, &required) {
                    (Some(x), Some(y)) => *x == *y,
                    (None, None) => true,
                    _ => false,
                };
                if same {
                    Ok(AccountId32CollectionId(*id))
                } else {
                    Err(JunctionConversionError::InvalidJunctionVariant)
                }
            },
            _ => Err(JunctionConversionError::InvalidJunctionVariant),
        }
    }
}

/// A collection identifier read from a 32-byte [`Junction::GeneralKey`].
#[derive(Clone, Copy, PartialEq, Eq, Structural, Debug)]
pub struct GeneralKey32CollectionId(pub u64);

impl GeneralKey32CollectionId {
    /// Reads the identifier out of a general-key junction with a 32-byte
    /// significant length.
    pub fn try_from_junction(junction: &Junction) -> (r: Result<Self, JunctionConversionError>)
        ensures
            match *junction {
                Junction::GeneralKey { length, data } => if length == 32 {
                    r == Ok::<Self, JunctionConversionError>(GeneralKey32CollectionId(data))
                } else {
                    r == Err::<Self, JunctionConversionError>(
                        JunctionConversionError::InvalidJunctionVariant,
                    )
                },
                _ => r == Err::<Self, JunctionConversionError>(
                    JunctionConversionError::InvalidJunctionVariant,
                ),
            },
    {
        match junction {
            Junction::GeneralKey { length, data } => if *length == 32 {
                Ok(GeneralKey32CollectionId(*data))
            } else {
                Err(JunctionConversionError::InvalidJunctionVariant)
            },
            _ => Err(JunctionConversionError::InvalidJunctionVariant),
        }
    }
}

/// An error during the conversion of an [`AssetInstance`] to a token
/// identifier.
#[derive(Clone, Copy, PartialEq, Eq, Structural, Debug)]
pub enum InstanceConversionError {
    /// The locator's payload does not fit the identifier type.
    InnerError,
    /// The supplied asset instance variant is not an expected one.
    InvalidInstanceVariant,
}

/// A token identifier read from an [`AssetInstance::Index`].
#[derive(Clone, Copy, PartialEq, Eq, Structural, Debug)]
pub struct IndexAssetInstance(pub u64);

impl IndexAssetInstance {
    /// Reads the identifier out of a numeric instance locator.
    pub fn try_from_instance(instance: &AssetInstance) -> (r: Result<
        Self,
        InstanceConversionError,
    >)
        ensures
            match *instance {
                AssetInstance::Index(index) => if index <= u64::MAX {
                    r == Ok::<Self, InstanceConversionError>(IndexAssetInstance(index as u64))
                } else {
                    r == Err::<Self, InstanceConversionError>(InstanceConversionError::InnerError)
                },
                _ => r == Err::<Self, InstanceConversionError>(
                    InstanceConversionError::InvalidInstanceVariant,
                ),
            },
    {
        match instance {
            AssetInstance::Index(index) => if *index <= u64::MAX as u128 {
                Ok(IndexAssetInstance(*index as u64))
            } else {
                Err(InstanceConversionError::InnerError)
            },
            _ => Err(InstanceConversionError::InvalidInstanceVariant),
        }
    }
}

/// A token identifier read from an [`AssetInstance::Array4`].
#[derive(Clone, Copy, PartialEq, Eq, Structural, Debug)]
pub struct Array4AssetInstance(pub u32);

impl Array4AssetInstance {
    /// Reads the identifier out of a 4-byte instance locator.
    pub fn try_from_instance(instance: &AssetInstance) -> (r: Result<
        Self,
        InstanceConversionError,
    >)
        ensures
            match *instance {
                AssetInstance::Array4(value) => r == Ok::<Self, InstanceConversionError>(
                    Array4AssetInstance(value),
                ),
                _ => r == Err::<Self, InstanceConversionError>(
                    InstanceConversionError::InvalidInstanceVariant,
                ),
            },
    {
        match instance {
            AssetInstance::Array4(value) => Ok(Array4AssetInstance(*value)),
            _ => Err(InstanceConversionError::InvalidInstanceVariant),
        }
    }
}

/// A token identifier read from an [`AssetInstance::Array8`].
#[derive(Clone, Copy, PartialEq, Eq, Structural, Debug)]
pub struct Array8AssetInstance(pub u64);

impl Array8AssetInstance {
    /// Reads the identifier out of an 8-byte instance locator.
    pub fn try_from_instance(instance: &AssetInstance) -> (r: Result<
        Self,
        InstanceConversionError,
    >)
        ensures
            match *instance {
                AssetInstance::Array8(value) => r == Ok::<Self, InstanceConversionError>(
                    Array8AssetInstance(value),
                ),
                _ => r == Err::<Self, InstanceConversionError>(
                    InstanceConversionError::InvalidInstanceVariant,
                ),
            },
    {
        match instance {
            AssetInstance::Array8(value) => Ok(Array8AssetInstance(*value)),
            _ => Err(InstanceConversionError::InvalidInstanceVariant),
        }
    }
}

/// A token identifier read from an [`AssetInstance::Array16`].
#[derive(Clone, Copy, PartialEq, Eq, Structural, Debug)]
pub struct Array16AssetInstance(pub u128);

impl Array16AssetInstance {
    /// Reads the identifier out of a 16-byte instance locator.
    pub fn try_from_instance(instance: &AssetInstance) -> (r: Result<
        Self,
        InstanceConversionError,
    >)
        ensures
            match *instance {
                AssetInstance::Array16(value) => r == Ok::<Self, InstanceConversionError>(
                    Array16AssetInstance(value),
                ),
                _ => r == Err::<Self, InstanceConversionError>(
                    InstanceConversionError::InvalidInstanceVariant,
                ),
            },
    {
        match instance {
            AssetInstance::Array16(value) => Ok(Array16AssetInstance(*value)),
            _ => Err(InstanceConversionError::InvalidInstanceVariant),
        }
    }
}

/// A token identifier read from an [`AssetInstance::Array32`].
#[derive(Clone, Copy, PartialEq, Eq, Structural, Debug)]
pub struct Array32AssetInstance(pub u128);

impl Array32AssetInstance {
    /// Reads the identifier out of a 32-byte instance locator.
    pub fn try_from_instance(instance: &AssetInstance) -> (r: Result<
        Self,
        InstanceConversionError,
    >)
        ensures
            match *instance {
                AssetInstance::Array32(value) => r == Ok::<Self, InstanceConversionError>(
                    Array32AssetInstance(value),
                ),
                _ => r == Err::<Self, InstanceConversionError>(
                    InstanceConversionError::InvalidInstanceVariant,
                ),
            },
    {
        match instance {
            AssetInstance::Array32(value) => Ok(Array32AssetInstance(*value)),
            _ => Err(InstanceConversionError::InvalidInstanceVariant),
        }
    }
}

} // verus!
