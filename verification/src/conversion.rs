//! Pluggable converters between locator paths and engine identifiers.
//!
//! A chain configures how a zero-ascent interior path addresses a local
//! class (a fixed prefix followed by one identifying junction) and how an
//! instance locator maps to an engine instance identifier.

use core::marker::PhantomData;

use vstd::prelude::*;

use crate::location::{AssetInstance, Junction, Junctions};

verus! {

/// A provider of a fixed interior-path prefix.
pub trait PrefixGet {
    /// The prefix under which the classes live.
    spec fn spec_prefix() -> Seq<Junction>;

    /// See [`PrefixGet::spec_prefix`].
    fn prefix() -> (r: Junctions)
        ensures
            r@ == Self::spec_prefix(),
    ;
}

/// A provider of a fixed network identifier requirement.
pub trait NetworkGet {
    /// The network an account junction must name, if any.
    spec fn spec_network() -> Option<u32>;

    /// See [`NetworkGet::spec_network`].
    fn network() -> (r: Option<u32>)
        ensures
            r == Self::spec_network(),
    ;
}

/// A pluggable conversion between an interior path and a class identifier.
pub trait InteriorConvert {
    /// The class the path addresses, if any.
    spec fn spec_convert(interior: Seq<Junction>) -> Option<u64>;

    /// The path addressing the class, if it can be formed.
    spec fn spec_convert_back(class_id: u64) -> Option<Seq<Junction>>;

    /// See [`InteriorConvert::spec_convert`].
    fn convert(interior: &Junctions) -> (r: Option<u64>)
        ensures
            r == Self::spec_convert(interior@),
    ;

    /// See [`InteriorConvert::spec_convert_back`].
    fn convert_back(class_id: u64) -> (r: Option<Junctions>)
        ensures
            match r {
                Some(interior) => Self::spec_convert_back(class_id) == Some(interior@),
                None => Self::spec_convert_back(class_id) is None,
            },
    ;
}

/// A pluggable conversion between an instance locator and an engine
/// instance identifier.
pub trait InstanceConvert {
    /// The instance identifier the locator encodes, if it fits.
    spec fn spec_convert(instance: AssetInstance) -> Option<u64>;

    /// The locator encoding the identifier, if it can be formed.
    spec fn spec_convert_back(instance_id: u64) -> Option<AssetInstance>;

    /// See [`InstanceConvert::spec_convert`].
    fn convert(instance: &AssetInstance) -> (r: Option<u64>)
        ensures
            r == Self::spec_convert(*instance),
    ;

    /// See [`InstanceConvert::spec_convert_back`].
    fn convert_back(instance_id: u64) -> (r: Option<AssetInstance>)
        ensures
            r == Self::spec_convert_back(instance_id),
    ;
}

/// `location` starts with the whole of `prefix`.
pub open spec fn spec_has_prefix(location: Seq<Junction>, prefix: Seq<Junction>) -> bool {
    &&& prefix.len() <= location.len()
    &&& forall|i: int| 0 <= i < prefix.len() ==> location[i] == prefix[i]
}

/// Checks that `location` starts with the configured prefix, returning the
/// prefix's length.
fn ensure_correct_prefix<P: PrefixGet>(location: &Junctions) -> (r: Option<usize>)
    ensures
        match r {
            Some(n) => n == P::spec_prefix().len() && spec_has_prefix(location@, P::spec_prefix()),
            None => !spec_has_prefix(location@, P::spec_prefix()),
        },
{
    let prefix = P::prefix();
    if prefix.segments.len() > location.segments.len() {
        return None;
    }
    let mut i: usize = 0;
    while i < prefix.segments.len()
        invariant
            i <= prefix@.len(),
            prefix@.len() <= location@.len(),
            prefix@ == P::spec_prefix(),
            forall|j: int| 0 <= j < i ==> location@[j] == prefix@[j],
        decreases prefix@.len() - i,
    {
        if location.segments[i] != prefix.segments[i] {
            return None;
        }
        i = i + 1;
    }
    Some(prefix.segments.len())
}

/// Addresses a class as the configured prefix followed by a
/// [`Junction::GeneralIndex`] carrying the class identifier.
pub struct InteriorGeneralIndex<P: PrefixGet>(PhantomData<P>);

impl<P: PrefixGet> InteriorConvert for InteriorGeneralIndex<P> {
    open spec fn spec_convert(interior: Seq<Junction>) -> Option<u64> {
        if spec_has_prefix(interior, P::spec_prefix()) && P::spec_prefix().len() < interior.len() {
            match interior[P::spec_prefix().len() as int] {
                Junction::GeneralIndex(index) => if index <= u64::MAX {
                    Some(index as u64)
                } else {
                    None
                },
                _ => None,
            }
        } else {
            None
        }
    }

    open spec fn spec_convert_back(class_id: u64) -> Option<Seq<Junction>> {
        if P::spec_prefix().len() < 8 {
            Some(P::spec_prefix().push(Junction::GeneralIndex(class_id as u128)))
        } else {
            None
        }
    }

    fn convert(interior: &Junctions) -> (r: Option<u64>) {
        let n = match ensure_correct_prefix::<P>(interior) {
            Some(n) => n,
            None => {
                return None;
            },
        };
        match interior.at(n) {
            Some(junction) => match junction {
                Junction::GeneralIndex(index) => if *index <= u64::MAX as u128 {
                    Some(*index as u64)
                } else {
                    None
                },
                _ => None,
            },
            None => None,
        }
    }

    fn convert_back(class_id: u64) -> (r: Option<Junctions>) {
        let mut location = P::prefix();
        match location.push(Junction::GeneralIndex(class_id as u128)) {
            Ok(()) => Some(location),
            Err(_) => None,
        }
    }
}

/// Whether two optional network identifiers agree.
fn network_matches(a: &Option<u32>, b: &Option<u32>) -> (r: bool)
    ensures
        r == (*a == *b),
{
    match (a, b) {
        (Some(x), Some(y)) => *x == *y,
        (None, None) => true,
        _ => false,
    }
}

/// Addresses a class as the configured prefix followed by a
/// [`Junction::AccountKey20`] of the configured network, carrying the class
/// identifier as its key value.
pub struct InteriorAccountKey20<P: PrefixGet, N: NetworkGet>(PhantomData<(P, N)>);

impl<P: PrefixGet, N: NetworkGet> InteriorConvert for InteriorAccountKey20<P, N> {
    open spec fn spec_convert(interior: Seq<Junction>) -> Option<u64> {
        if spec_has_prefix(interior, P::spec_prefix()) && P::spec_prefix().len() < interior.len() {
            match interior[P::spec_prefix().len() as int] {
                Junction::AccountKey20 { network, key } => if network == N::spec_network() {
                    Some(key)
                } else {
                    None
                },
                _ => None,
            }
        } else {
            None
        }
    }

    open spec fn spec_convert_back(class_id: u64) -> Option<Seq<Junction>> {
        if P::spec_prefix().len() < 8 {
            Some(
                P::spec_prefix().push(
                    Junction::AccountKey20 { network: N::spec_network(), key: class_id },
                ),
            )
        } else {
            None
        }
    }

    fn convert(interior: &Junctions) -> (r: Option<u64>) {
        let n = match ensure_correct_prefix::<P>(interior) {
            Some(n) => n,
            None => {
                return None;
            },
        };
        match interior.at(n) {
            Some(junction) => match junction {
                Junction::AccountKey20 { network, key } => {
                    let required = N::network();
                    if network_matches(network, &required) {
                        Some(*key)
                    } else {
                        None
                    }
                },
                _ => None,
            },
            None => None,
        }
    }

    fn convert_back(class_id: u64) -> (r: Option<Junctions>) {
        let mut location = P::prefix();
        match location.push(Junction::AccountKey20 { network: N::network(), key: class_id }) {
            Ok(()) => Some(location),
            Err(_) => None,
        }
    }
}

/// Addresses a class as the configured prefix followed by a
/// [`Junction::AccountId32`] of the configured network, carrying the class
/// identifier as its id value.
pub struct InteriorAccountId32<P: PrefixGet, N: NetworkGet>(PhantomData<(P, N)>);

impl<P: PrefixGet, N: NetworkGet> InteriorConvert for InteriorAccountId32<P, N> {
    open spec fn spec_convert(interior: Seq<Junction>) -> Option<u64> {
        if spec_has_prefix(interior, P::spec_prefix()) && P::spec_prefix().len() < interior.len() {
            match interior[P::spec_prefix().len() as int] {
                Junction::AccountId32 { network, id } => if network == N::spec_network() {
                    Some(id)
                } else {
                    None
                },
                _ => None,
            }
        } else {
            None
        }
    }

    open spec fn spec_convert_back(class_id: u64) -> Option<Seq<Junction>> {
        if P::spec_prefix().len() < 8 {
            Some(
                P::spec_prefix().push(
                    Junction::AccountId32 { network: N::spec_network(), id: class_id },
                ),
            )
        } else {
            None
        }
    }

    fn convert(interior: &Junctions) -> (r: Option<u64>) {
        let n = match ensure_correct_prefix::<P>(interior) {
            Some(n) => n,
            None => {
                return None;
            },
        };
        match interior.at(n) {
            Some(junction) => match junction {
                Junction::AccountId32 { network, id } => {
                    let required = N::network();
                    if network_matches(network, &required) {
                        Some(*id)
                    } else {
                        None
                    }
                },
                _ => None,
            },
            None => None,
        }
    }

    fn convert_back(class_id: u64) -> (r: Option<Junctions>) {
        let mut location = P::prefix();
        match location.push(Junction::AccountId32 { network: N::network(), id: class_id }) {
            Ok(()) => Some(location),
            Err(_) => None,
        }
    }
}

/// Addresses a class as the configured prefix followed by a 32-byte
/// [`Junction::GeneralKey`] carrying the class identifier as its key value.
pub struct InteriorGeneralKey<P: PrefixGet>(PhantomData<P>);

impl<P: PrefixGet> InteriorConvert for InteriorGeneralKey<P> {
    open spec fn spec_convert(interior: Seq<Junction>) -> Option<u64> {
        if spec_has_prefix(interior, P::spec_prefix()) && P::spec_prefix().len() < interior.len() {
            match interior[P::spec_prefix().len() as int] {
                Junction::GeneralKey { length, data } => if length == 32 {
                    Some(data)
                } else {
                    None
                },
                _ => None,
            }
        } else {
            None
        }
    }

    open spec fn spec_convert_back(class_id: u64) -> Option<Seq<Junction>> {
        if P::spec_prefix().len() < 8 {
            Some(P::spec_prefix().push(Junction::GeneralKey { length: 32, data: class_id }))
        } else {
            None
        }
    }

    fn convert(interior: &Junctions) -> (r: Option<u64>) {
        let n = match ensure_correct_prefix::<P>(interior) {
            Some(n) => n,
            None => {
                return None;
            },
        };
        match interior.at(n) {
            Some(junction) => match junction {
                Junction::GeneralKey { length, data } => if *length == 32 {
                    Some(*data)
                } else {
                    None
                },
                _ => None,
            },
            None => None,
        }
    }

    fn convert_back(class_id: u64) -> (r: Option<Junctions>) {
        let mut location = P::prefix();
        match location.push(Junction::GeneralKey { length: 32, data: class_id }) {
            Ok(()) => Some(location),
            Err(_) => None,
        }
    }
}

/// Encodes an instance identifier as a numeric [`AssetInstance::Index`].
pub struct IndexAssetInstance;

impl InstanceConvert for IndexAssetInstance {
    open spec fn spec_convert(instance: AssetInstance) -> Option<u64> {
        match instance {
            AssetInstance::Index(index) => if index <= u64::MAX {
                Some(index as u64)
            } else {
                None
            },
            _ => None,
        }
    }

    open spec fn spec_convert_back(instance_id: u64) -> Option<AssetInstance> {
        Some(AssetInstance::Index(instance_id as u128))
    }

    fn convert(instance: &AssetInstance) -> (r: Option<u64>) {
        match instance {
            AssetInstance::Index(index) => if *index <= u64::MAX as u128 {
                Some(*index as u64)
            } else {
                None
            },
            _ => None,
        }
    }

    fn convert_back(instance_id: u64) -> (r: Option<AssetInstance>) {
        Some(AssetInstance::Index(instance_id as u128))
    }
}

/// Encodes an instance identifier as a 4-byte [`AssetInstance::Array4`].
pub struct Array4AssetInstance;

impl InstanceConvert for Array4AssetInstance {
    open spec fn spec_convert(instance: AssetInstance) -> Option<u64> {
        match instance {
            AssetInstance::Array4(value) => Some(value as u64),
            _ => None,
        }
    }

    open spec fn spec_convert_back(instance_id: u64) -> Option<AssetInstance> {
        if instance_id <= u32::MAX {
            Some(AssetInstance::Array4(instance_id as u32))
        } else {
            None
        }
    }

    fn convert(instance: &AssetInstance) -> (r: Option<u64>) {
        match instance {
            AssetInstance::Array4(value) => Some(*value as u64),
            _ => None,
        }
    }

    fn convert_back(instance_id: u64) -> (r: Option<AssetInstance>) {
        if instance_id <= u32::MAX as u64 {
            Some(AssetInstance::Array4(instance_id as u32))
        } else {
            None
        }
    }
}

/// Encodes an instance identifier as an 8-byte [`AssetInstance::Array8`].
pub struct Array8AssetInstance;

impl InstanceConvert for Array8AssetInstance {
    open spec fn spec_convert(instance: AssetInstance) -> Option<u64> {
        match instance {
            AssetInstance::Array8(value) => Some(value),
            _ => None,
        }
    }

    open spec fn spec_convert_back(instance_id: u64) -> Option<AssetInstance> {
        Some(AssetInstance::Array8(instance_id))
    }

    fn convert(instance: &AssetInstance) -> (r: Option<u64>) {
        match instance {
            AssetInstance::Array8(value) => Some(*value),
            _ => None,
        }
    }

    fn convert_back(instance_id: u64) -> (r: Option<AssetInstance>) {
        Some(AssetInstance::Array8(instance_id))
    }
}

/// Encodes an instance identifier as a 16-byte [`AssetInstance::Array16`].
pub struct Array16AssetInstance;

impl InstanceConvert for Array16AssetInstance {
    open spec fn spec_convert(instance: AssetInstance) -> Option<u64> {
        match instance {
            AssetInstance::Array16(value) => if value <= u64::MAX {
                Some(value as u64)
            } else {
                None
            },
            _ => None,
        }
    }

    open spec fn spec_convert_back(instance_id: u64) -> Option<AssetInstance> {
        Some(AssetInstance::Array16(instance_id as u128))
    }

    fn convert(instance: &AssetInstance) -> (r: Option<u64>) {
        match instance {
            AssetInstance::Array16(value) => if *value <= u64::MAX as u128 {
                Some(*value as u64)
            } else {
                None
            },
            _ => None,
        }
    }

    fn convert_back(instance_id: u64) -> (r: Option<AssetInstance>) {
        Some(AssetInstance::Array16(instance_id as u128))
    }
}

/// Encodes an instance identifier as a 32-byte [`AssetInstance::Array32`].
pub struct Array32AssetInstance;

impl InstanceConvert for Array32AssetInstance {
    open spec fn spec_convert(instance: AssetInstance) -> Option<u64> {
        match instance {
            AssetInstance::Array32(value) => if value <= u64::MAX {
                Some(value as u64)
            } else {
                None
            },
            _ => None,
        }
    }

    open spec fn spec_convert_back(instance_id: u64) -> Option<AssetInstance> {
        Some(AssetInstance::Array32(instance_id as u128))
    }

    fn convert(instance: &AssetInstance) -> (r: Option<u64>) {
        match instance {
            AssetInstance::Array32(value) => if *value <= u64::MAX as u128 {
                Some(*value as u64)
            } else {
                None
            },
            _ => None,
        }
    }

    fn convert_back(instance_id: u64) -> (r: Option<AssetInstance>) {
        Some(AssetInstance::Array32(instance_id as u128))
    }
}

} // verus!
