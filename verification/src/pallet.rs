//! The transactor's persisted state: the foreign-asset registry, the
//! derivative status store, the emitted events, and the registration flow.

use vstd::prelude::*;

use crate::assoc_map::{AssocMap, MapKey};
use crate::errors::{DispatchError, Error, XcmError};
use crate::location::{is_simplified, spec_simplify, AssetId, AssetIdV, AssetInstance, Junction,
    Junctions, MultiAsset, MultiLocation, MultiLocationV, VersionedAssetId};
use crate::traits::{Config, NftEngine, Origin};

verus! {

/// The status of a derivative instance identifier.
#[derive(Clone, Copy, PartialEq, Eq, Structural, Debug)]
pub enum DerivativeStatus {
    /// The derivative is backed by the original asset and owned by a user on
    /// this chain.
    Active(u64),
    /// The original asset does not back the derivative now, and no one on
    /// this chain can own it; the identifier becomes active again when the
    /// original asset is deposited into this chain again.
    Stashed(u64),
    /// No derivative identifier exists.
    NotExists,
}

impl Default for DerivativeStatus {
    /// Absence of a status entry reads as [`DerivativeStatus::NotExists`].
    fn default() -> (r: Self)
        ensures
            r == DerivativeStatus::NotExists,
    {
        DerivativeStatus::NotExists
    }
}

impl View for DerivativeStatus {
    type V = DerivativeStatus;

    open spec fn view(&self) -> DerivativeStatus {
        *self
    }
}

impl DerivativeStatus {
    /// The identifier carried by an active or stashed status.
    pub open spec fn spec_instance_id(self) -> u64 {
        match self {
            DerivativeStatus::Active(id) => id,
            DerivativeStatus::Stashed(id) => id,
            DerivativeStatus::NotExists => 0,
        }
    }

    /// The identifier of an active derivative.  A stashed derivative is
    /// owned by nobody, so a user cannot move it; a nonexistent one cannot
    /// be resolved at all.
    pub fn ensure_active(self) -> (r: Result<u64, XcmError>)
        ensures
            self matches DerivativeStatus::Active(id) ==> r == Ok::<u64, XcmError>(id),
            self is Stashed ==> r == Err::<u64, XcmError>(XcmError::NoPermission),
            self is NotExists ==> r == Err::<u64, XcmError>(XcmError::InstanceConversionFailed),
    {
        match self {
            DerivativeStatus::Active(id) => Ok(id),
            DerivativeStatus::Stashed(_) => Err(XcmError::NoPermission),
            DerivativeStatus::NotExists => Err(XcmError::InstanceConversionFailed),
        }
    }
}

/// An NFT's complete identification: its class and an instance value within
/// that class.
#[derive(Clone, Copy, PartialEq, Eq, Structural, Debug)]
pub struct ClassInstance<Id> {
    /// The class of the instance.
    pub class_id: u64,
    /// The instance within the class.
    pub instance_id: Id,
}

impl<Id> From<(u64, Id)> for ClassInstance<Id> {
    /// Pairs a class with an instance value.
    fn from(pair: (u64, Id)) -> (r: Self) {
        let (class_id, instance_id) = pair;
        ClassInstance { class_id, instance_id }
    }
}

impl<Id> vstd::std_specs::convert::FromSpecImpl<(u64, Id)> for ClassInstance<Id> {
    open spec fn obeys_from_spec() -> bool {
        true
    }

    open spec fn from_spec(pair: (u64, Id)) -> Self {
        ClassInstance { class_id: pair.0, instance_id: pair.1 }
    }
}

/// A foreign NFT's complete identification.
#[derive(Clone, Debug)]
pub struct ForeignAssetInstance {
    /// The asset of the foreign instance.
    pub asset_id: AssetId,
    /// The foreign instance locator.
    pub asset_instance: AssetInstance,
}

/// The mathematical value of a foreign NFT identification.
pub struct ForeignAssetInstanceV {
    pub asset_id: AssetIdV,
    pub asset_instance: AssetInstance,
}

impl View for ForeignAssetInstance {
    type V = ForeignAssetInstanceV;

    open spec fn view(&self) -> ForeignAssetInstanceV {
        ForeignAssetInstanceV { asset_id: self.asset_id@, asset_instance: self.asset_instance }
    }
}

impl From<(AssetId, AssetInstance)> for ForeignAssetInstance {
    /// Pairs an asset with one of its instance locators.
    fn from(pair: (AssetId, AssetInstance)) -> (r: Self) {
        let (asset_id, asset_instance) = pair;
        ForeignAssetInstance { asset_id, asset_instance }
    }
}

impl vstd::std_specs::convert::FromSpecImpl<(AssetId, AssetInstance)> for ForeignAssetInstance {
    open spec fn obeys_from_spec() -> bool {
        true
    }

    open spec fn from_spec(pair: (AssetId, AssetInstance)) -> Self {
        ForeignAssetInstance { asset_id: pair.0, asset_instance: pair.1 }
    }
}

/// A class instance is either local to this chain or the derivative of a
/// foreign instance on a remote chain.
#[derive(Clone, Debug)]
pub enum CategorizedClassInstance<L, D> {
    /// A local class instance.
    Local(L),
    /// A derivative corresponding to a foreign instance.
    Derivative {
        /// The foreign instance the derivative corresponds to.
        foreign_asset_instance: ForeignAssetInstance,
        /// The derivative side of the correspondence on this chain.
        derivative: D,
    },
}

/// A concrete class instance as carried by events.
pub type EventInstance = CategorizedClassInstance<ClassInstance<u64>, ClassInstance<u64>>;

/// The mathematical value of an event's class instance.
pub enum EventInstanceV {
    Local { class_id: u64, instance_id: u64 },
    Derivative { asset_id: AssetIdV, asset_instance: AssetInstance, class_id: u64, instance_id: u64 },
}

/// The mathematical value of an event's class instance.
pub open spec fn event_instance_view(instance: EventInstance) -> EventInstanceV {
    match instance {
        CategorizedClassInstance::Local(ci) => EventInstanceV::Local {
            class_id: ci.class_id,
            instance_id: ci.instance_id,
        },
        CategorizedClassInstance::Derivative { foreign_asset_instance, derivative } =>
            EventInstanceV::Derivative {
            asset_id: foreign_asset_instance.asset_id@,
            asset_instance: foreign_asset_instance.asset_instance,
            class_id: derivative.class_id,
            instance_id: derivative.instance_id,
        },
    }
}

/// A domain event emitted by the transactor.
#[derive(Clone, Debug)]
pub enum Event {
    /// The given foreign asset is registered.
    ForeignAssetRegistered { foreign_asset_id: AssetId, derivative_class_id: u64 },
    /// A class instance is deposited.
    Deposited { class_instance: EventInstance, to: u64 },
    /// A class instance is withdrawn.
    Withdrawn { class_instance: EventInstance, from: u64 },
    /// A class instance is transferred.
    Transferred { class_instance: EventInstance, from: u64, to: u64 },
}

/// The mathematical value of a domain event.
pub enum EventV {
    ForeignAssetRegistered { foreign_asset_id: AssetIdV, derivative_class_id: u64 },
    Deposited { class_instance: EventInstanceV, to: u64 },
    Withdrawn { class_instance: EventInstanceV, from: u64 },
    Transferred { class_instance: EventInstanceV, from: u64, to: u64 },
}

impl View for Event {
    type V = EventV;

    open spec fn view(&self) -> EventV {
        match self {
            Event::ForeignAssetRegistered { foreign_asset_id, derivative_class_id } =>
                EventV::ForeignAssetRegistered {
                foreign_asset_id: foreign_asset_id@,
                derivative_class_id: *derivative_class_id,
            },
            Event::Deposited { class_instance, to } => EventV::Deposited {
                class_instance: event_instance_view(*class_instance),
                to: *to,
            },
            Event::Withdrawn { class_instance, from } => EventV::Withdrawn {
                class_instance: event_instance_view(*class_instance),
                from: *from,
            },
            Event::Transferred { class_instance, from, to } => EventV::Transferred {
                class_instance: event_instance_view(*class_instance),
                from: *from,
                to: *to,
            },
        }
    }
}

/// The mathematical value of an event sequence.
pub open spec fn events_view(s: Seq<Event>) -> Seq<EventV> {
    s.map_values(|e: Event| e@)
}

/// Appending an event appends its value to the event log.
pub proof fn lemma_events_view_push(s: Seq<Event>, e: Event)
    ensures
        events_view(s.push(e)) == events_view(s).push(e@),
{
    assert(events_view(s.push(e)) =~= events_view(s).push(e@));
}

/// The key of the status store: a derivative class and a foreign instance.
#[derive(Clone, Copy, PartialEq, Eq, Structural, Debug)]
pub struct ForeignInstanceKey {
    /// The derivative class.
    pub class_id: u64,
    /// The foreign instance locator.
    pub instance: AssetInstance,
}

impl View for ForeignInstanceKey {
    type V = (u64, AssetInstance);

    open spec fn view(&self) -> (u64, AssetInstance) {
        (self.class_id, self.instance)
    }
}

impl MapKey for ForeignInstanceKey {
    fn key_eq(&self, other: &Self) -> (r: bool) {
        self.class_id == other.class_id && self.instance == other.instance
    }
}

/// The key of the reverse map: a derivative class and a local instance
/// identifier within it.
#[derive(Clone, Copy, PartialEq, Eq, Structural, Debug)]
pub struct DerivativeKey {
    /// The derivative class.
    pub class_id: u64,
    /// The local instance identifier.
    pub instance_id: u64,
}

impl View for DerivativeKey {
    type V = (u64, u64);

    open spec fn view(&self) -> (u64, u64) {
        (self.class_id, self.instance_id)
    }
}

impl MapKey for DerivativeKey {
    fn key_eq(&self, other: &Self) -> (r: bool) {
        self.class_id == other.class_id && self.instance_id == other.instance_id
    }
}

impl MapKey for AssetId {
    fn key_eq(&self, other: &Self) -> (r: bool) {
        self.eq_id(other)
    }
}

impl MapKey for u64 {
    fn key_eq(&self, other: &Self) -> (r: bool) {
        *self == *other
    }
}

/// An asset identifier in local form: a reserve location with no ascent.
pub open spec fn is_local_form(a: AssetIdV) -> bool {
    match a {
        AssetIdV::Concrete(loc) => loc.parents == 0,
        AssetIdV::Abstract(_) => false,
    }
}

/// A registrable foreign asset identifier: normalized relative to `context`
/// and, if a reserve location, of nonzero ascent.
pub open spec fn asset_id_foreign_form(a: AssetIdV, context: Seq<Junction>) -> bool {
    match a {
        AssetIdV::Concrete(loc) => loc.parents > 0 && is_simplified(loc, context),
        AssetIdV::Abstract(_) => true,
    }
}

/// Rewriting an asset identifier into canonical form: a reserve location is
/// simplified relative to `context`, an opaque key is left unchanged.
pub open spec fn spec_simplify_asset_id(a: AssetIdV, context: Seq<Junction>) -> AssetIdV {
    match a {
        AssetIdV::Concrete(loc) => AssetIdV::Concrete(spec_simplify(loc, context)),
        AssetIdV::Abstract(_) => a,
    }
}

/// The transactor's persisted state.
pub struct Pallet {
    /// This chain's universal location.
    pub universal_location: Junctions,
    /// The vault account holding stashed derivatives.
    pub vault_account: u64,
    /// Foreign asset locator to derivative class.
    pub foreign_to_class: AssocMap<AssetId, u64>,
    /// Derivative class to foreign asset locator.
    pub class_to_foreign: AssocMap<u64, AssetId>,
    /// Per (class, foreign instance): the derivative's status.
    pub derivative_status: AssocMap<ForeignInstanceKey, DerivativeStatus>,
    /// Per (class, local instance identifier): the foreign instance.
    pub derivative_to_foreign: AssocMap<DerivativeKey, AssetInstance>,
    /// The emitted domain events, oldest first.
    pub events: Vec<Event>,
}

impl Pallet {
    /// The registered foreign assets and their derivative classes.
    pub open spec fn foreign_to_class_map(self) -> Map<AssetIdV, u64> {
        self.foreign_to_class@
    }

    /// The derivative classes and the foreign assets backing them.
    pub open spec fn class_to_foreign_map(self) -> Map<u64, AssetIdV> {
        self.class_to_foreign@
    }

    /// The stored statuses, keyed by class and foreign instance.
    pub open spec fn status_map(self) -> Map<(u64, AssetInstance), DerivativeStatus> {
        self.derivative_status@
    }

    /// The reverse map from local derivative identifiers to foreign
    /// instances, keyed by class and local identifier.
    pub open spec fn reverse_map(self) -> Map<(u64, u64), AssetInstance> {
        self.derivative_to_foreign@
    }

    /// The event log's values, oldest first.
    pub open spec fn events_log(self) -> Seq<EventV> {
        events_view(self.events@)
    }

    /// The status of the derivative of `instance` within `class_id`; absence
    /// reads as [`DerivativeStatus::NotExists`].
    pub open spec fn status_of(self, class_id: u64, instance: AssetInstance) -> DerivativeStatus {
        if self.status_map().contains_key((class_id, instance)) {
            self.status_map()[(class_id, instance)]
        } else {
            DerivativeStatus::NotExists
        }
    }

    /// The stores themselves are well-formed.
    pub open spec fn maps_wf(self) -> bool {
        &&& self.foreign_to_class.wf()
        &&& self.class_to_foreign.wf()
        &&& self.derivative_status.wf()
        &&& self.derivative_to_foreign.wf()
    }

    /// Both registry directions are written in the same logical step, so
    /// they are mutually inverse: neither entry exists without the other.
    pub open spec fn registry_bijective(self) -> bool {
        &&& forall|a: AssetIdV| #[trigger]
            self.foreign_to_class_map().contains_key(a) ==> self.class_to_foreign_map().contains_key(
                self.foreign_to_class_map()[a],
            ) && self.class_to_foreign_map()[self.foreign_to_class_map()[a]] == a
        &&& forall|c: u64| #[trigger]
            self.class_to_foreign_map().contains_key(c) ==> self.foreign_to_class_map().contains_key(
                self.class_to_foreign_map()[c],
            ) && self.foreign_to_class_map()[self.class_to_foreign_map()[c]] == c
    }

    /// Every registered locator is normalized and denotes a foreign asset:
    /// a locator in local form can never be registered.
    pub open spec fn registered_assets_foreign(self) -> bool {
        forall|a: AssetIdV| #[trigger]
            self.foreign_to_class_map().contains_key(a) ==> asset_id_foreign_form(
                a,
                self.universal_location@,
            )
    }

    /// A stored status is never the explicit nonexistent marker.
    pub open spec fn statuses_exist(self) -> bool {
        forall|k: (u64, AssetInstance)| #[trigger]
            self.status_map().contains_key(k) ==> !(self.status_map()[k] is NotExists)
    }

    /// Within each class, the active or stashed statuses and the reverse
    /// map are mutually inverse: the pairs (foreign instance, local
    /// identifier) they record form a bijection.
    pub open spec fn derivative_maps_bijective(self) -> bool {
        &&& forall|k: (u64, AssetInstance)| #[trigger]
            self.status_map().contains_key(k) ==> self.reverse_map().contains_key(
                (k.0, self.status_map()[k].spec_instance_id()),
            ) && self.reverse_map()[(k.0, self.status_map()[k].spec_instance_id())] == k.1
        &&& forall|k: (u64, u64)| #[trigger]
            self.reverse_map().contains_key(k) ==> self.status_map().contains_key(
                (k.0, self.reverse_map()[k]),
            ) && self.status_map()[(k.0, self.reverse_map()[k])].spec_instance_id() == k.1
    }

    /// The state invariant, established by [`Pallet::new`] and preserved by
    /// every operation.
    pub open spec fn wf(self) -> bool {
        &&& self.maps_wf()
        &&& self.registry_bijective()
        &&& self.registered_assets_foreign()
        &&& self.statuses_exist()
        &&& self.derivative_maps_bijective()
    }

    /// The state agrees with the engine: every class the registry claims
    /// exists in the engine, and every local identifier the reverse map
    /// records was assigned by the engine.
    pub open spec fn compatible_with<E: NftEngine>(self, engine: E) -> bool {
        &&& forall|c: u64| #[trigger]
            self.class_to_foreign_map().contains_key(c) ==> engine.spec_classes().contains(c)
        &&& forall|k: (u64, u64)| #[trigger]
            self.reverse_map().contains_key(k) ==> engine.spec_ever_minted(k.0).contains(k.1)
    }

    /// A fresh transactor for a chain at `universal_location`, stashing
    /// into `vault_account`.
    pub fn new(universal_location: Junctions, vault_account: u64) -> (r: Pallet)
        ensures
            r.wf(),
            r.universal_location@ == universal_location@,
            r.vault_account == vault_account,
            r.foreign_to_class_map() == Map::<AssetIdV, u64>::empty(),
            r.class_to_foreign_map() == Map::<u64, AssetIdV>::empty(),
            r.status_map() == Map::<(u64, AssetInstance), DerivativeStatus>::empty(),
            r.reverse_map() == Map::<(u64, u64), AssetInstance>::empty(),
            r.events_log() == Seq::<EventV>::empty(),
    {
        let r = Pallet {
            universal_location,
            vault_account,
            foreign_to_class: AssocMap::new(),
            class_to_foreign: AssocMap::new(),
            derivative_status: AssocMap::new(),
            derivative_to_foreign: AssocMap::new(),
            events: Vec::new(),
        };
        proof {
            assert(r.events_log() =~= Seq::<EventV>::empty());
        }
        r
    }

    /// The derivative class registered for `foreign_asset_id`, if any.
    pub fn foreign_asset_to_local_class(&self, foreign_asset_id: &AssetId) -> (r: Option<u64>)
        requires
            self.wf(),
        ensures
            match r {
                Some(class_id) => self.foreign_to_class_map().contains_key(foreign_asset_id@)
                    && self.foreign_to_class_map()[foreign_asset_id@] == class_id,
                None => !self.foreign_to_class_map().contains_key(foreign_asset_id@),
            },
    {
        match self.foreign_to_class.get(foreign_asset_id) {
            Some(class_id) => Some(*class_id),
            None => None,
        }
    }

    /// The foreign asset backing the derivative class `class_id`, if any.
    pub fn local_class_to_foreign_asset(&self, class_id: u64) -> (r: Option<&AssetId>)
        requires
            self.wf(),
        ensures
            match r {
                Some(asset) => self.class_to_foreign_map().contains_key(class_id)
                    && self.class_to_foreign_map()[class_id] == asset@,
                None => !self.class_to_foreign_map().contains_key(class_id),
            },
    {
        self.class_to_foreign.get(&class_id)
    }

    /// The status of the derivative of `instance` within `class_id`.
    pub fn foreign_instance_to_derivative_status(
        &self,
        class_id: u64,
        instance: &AssetInstance,
    ) -> (r: DerivativeStatus)
        requires
            self.wf(),
        ensures
            r == self.status_of(class_id, *instance),
    {
        match self.derivative_status.get(&ForeignInstanceKey { class_id, instance: *instance }) {
            Some(status) => *status,
            None => DerivativeStatus::NotExists,
        }
    }

    /// The foreign instance the derivative `instance_id` of `class_id`
    /// corresponds to, if any.
    pub fn derivative_to_foreign_instance(&self, class_id: u64, instance_id: u64) -> (r: Option<
        AssetInstance,
    >)
        requires
            self.wf(),
        ensures
            match r {
                Some(instance) => self.reverse_map().contains_key((class_id, instance_id))
                    && self.reverse_map()[(class_id, instance_id)] == instance,
                None => !self.reverse_map().contains_key((class_id, instance_id)),
            },
    {
        match self.derivative_to_foreign.get(&DerivativeKey { class_id, instance_id }) {
            Some(instance) => Some(*instance),
            None => None,
        }
    }

    /// Rewrites an asset identifier into canonical form relative to this
    /// chain's universal location.
    pub fn simplify_asset_id(&self, asset_id: AssetId) -> (r: AssetId)
        ensures
            r@ == spec_simplify_asset_id(asset_id@, self.universal_location@),
    {
        match asset_id {
            AssetId::Concrete(location) => {
                let mut location = location;
                location.simplify(&self.universal_location);
                AssetId::Concrete(location)
            },
            AssetId::Abstract(key) => AssetId::Abstract(key),
        }
    }

    /// Rewrites an asset's identifier into canonical form relative to this
    /// chain's universal location.
    pub fn simplify_asset(&self, xcm_asset: MultiAsset) -> (r: MultiAsset)
        ensures
            r@.id == spec_simplify_asset_id(xcm_asset@.id, self.universal_location@),
            r@.fun == xcm_asset@.fun,
    {
        let MultiAsset { id, fun } = xcm_asset;
        MultiAsset { id: self.simplify_asset_id(id), fun }
    }

    /// Checks that the foreign asset can be registered, in order: the
    /// identifier must decode into the current encoding; it must not
    /// normalize to local form; the origin must be allowed to register it;
    /// and it must not be registered already.  Returns the normalized
    /// identifier on success.
    pub fn foreign_asset_registration_checks<T: Config>(
        &self,
        origin: &Origin,
        versioned_foreign_asset: VersionedAssetId,
    ) -> (r: Result<AssetId, DispatchError>)
        requires
            self.wf(),
        ensures
            ({
                let decoded = versioned_foreign_asset.spec_as_current();
                match decoded {
                    None => r == Err::<AssetId, DispatchError>(
                        DispatchError::Xnft(Error::BadAssetId),
                    ),
                    Some(raw) => {
                        let simplified = spec_simplify_asset_id(raw, self.universal_location@);
                        if is_local_form(simplified) {
                            r == Err::<AssetId, DispatchError>(
                                DispatchError::Xnft(Error::AttemptToRegisterLocalAsset),
                            )
                        } else if !T::spec_register_allowed(*origin, simplified) {
                            r == Err::<AssetId, DispatchError>(DispatchError::BadOrigin)
                        } else if self.foreign_to_class_map().contains_key(simplified) {
                            r == Err::<AssetId, DispatchError>(
                                DispatchError::Xnft(Error::AssetAlreadyRegistered),
                            )
                        } else {
                            r matches Ok(id) && id@ == simplified
                        }
                    },
                }
            }),
    {
        let foreign_asset_id = match versioned_foreign_asset.try_as_current() {
            Some(id) => id,
            None => {
                return Err(DispatchError::Xnft(Error::BadAssetId));
            },
        };
        let simplified_asset_id = self.simplify_asset_id(foreign_asset_id);

        let local = match &simplified_asset_id {
            AssetId::Concrete(location) => location.parents == 0,
            AssetId::Abstract(_) => false,
        };
        if local {
            return Err(DispatchError::Xnft(Error::AttemptToRegisterLocalAsset));
        }
        match T::ensure_register_origin(origin, &simplified_asset_id) {
            Ok(()) => {},
            Err(e) => {
                return Err(e);
            },
        }
        if self.foreign_to_class.contains_key(&simplified_asset_id) {
            return Err(DispatchError::Xnft(Error::AssetAlreadyRegistered));
        }
        Ok(simplified_asset_id)
    }

    /// Registers a foreign non-fungible asset: runs the registration
    /// checks, has the engine create a derivative class owned by the vault
    /// account, and records both registry directions in the same logical
    /// step.  On any error, nothing is recorded.
    pub fn register_foreign_asset<T: Config>(
        &mut self,
        engine: &mut T::Engine,
        origin: &Origin,
        versioned_foreign_asset: VersionedAssetId,
        derivative_class_data: u64,
    ) -> (r: Result<u64, DispatchError>)
        requires
            old(self).wf(),
            old(self).compatible_with(*old(engine)),
        ensures
            final(self).wf(),
            final(self).compatible_with(*final(engine)),
            final(self).universal_location@ == old(self).universal_location@,
            final(self).vault_account == old(self).vault_account,
            match r {
                Ok(class_id) => {
                    let raw = versioned_foreign_asset.spec_as_current()->Some_0;
                    let simplified = spec_simplify_asset_id(raw, old(self).universal_location@);
                    &&& versioned_foreign_asset.spec_as_current() is Some
                    &&& asset_id_foreign_form(simplified, old(self).universal_location@)
                    &&& T::spec_register_allowed(*origin, simplified)
                    &&& !old(self).foreign_to_class_map().contains_key(simplified)
                    &&& !old(engine).spec_classes().contains(class_id)
                    &&& final(self).foreign_to_class_map() == old(
                        self,
                    ).foreign_to_class_map().insert(simplified, class_id)
                    &&& final(self).class_to_foreign_map() == old(
                        self,
                    ).class_to_foreign_map().insert(class_id, simplified)
                    &&& final(self).status_map() == old(self).status_map()
                    &&& final(self).reverse_map() == old(self).reverse_map()
                    &&& final(self).events_log() == old(self).events_log().push(
                        EventV::ForeignAssetRegistered {
                            foreign_asset_id: simplified,
                            derivative_class_id: class_id,
                        },
                    )
                },
                Err(e) => {
                    &&& *final(self) == *old(self)
                    &&& *final(engine) == *old(engine)
                    &&& ({
                        let decoded = versioned_foreign_asset.spec_as_current();
                        match decoded {
                            None => e == DispatchError::Xnft(Error::BadAssetId),
                            Some(raw) => {
                                let simplified = spec_simplify_asset_id(
                                    raw,
                                    old(self).universal_location@,
                                );
                                if is_local_form(simplified) {
                                    e == DispatchError::Xnft(Error::AttemptToRegisterLocalAsset)
                                } else if !T::spec_register_allowed(*origin, simplified) {
                                    e == DispatchError::BadOrigin
                                } else if old(self).foreign_to_class_map().contains_key(
                                    simplified,
                                ) {
                                    e == DispatchError::Xnft(Error::AssetAlreadyRegistered)
                                } else {
                                    true  // the engine refused the class creation
                                }
                            },
                        }
                    })
                },
            },
    {
        let foreign_asset_id = match self.foreign_asset_registration_checks::<T>(
            origin,
            versioned_foreign_asset,
        ) {
            Ok(id) => id,
            Err(e) => {
                return Err(e);
            },
        };
        let ghost a = foreign_asset_id@;
        let ghost pre = *self;
        let ghost engine_pre = *engine;

        let derivative_class_id = match engine.create_class(
            self.vault_account,
            derivative_class_data,
        ) {
            Ok(class_id) => class_id,
            Err(e) => {
                return Err(e);
            },
        };

        proof {
            let raw = versioned_foreign_asset.spec_as_current()->Some_0;
            match raw {
                AssetIdV::Concrete(loc) => crate::location::lemma_simplify_idempotent(
                    loc,
                    self.universal_location@,
                ),
                AssetIdV::Abstract(_) => {},
            }
            assert(asset_id_foreign_form(a, pre.universal_location@));
        }

        let event_asset_id = foreign_asset_id.duplicate();
        self.foreign_to_class.insert(foreign_asset_id, derivative_class_id);
        let registered_asset_id = event_asset_id.duplicate();
        self.class_to_foreign.insert(derivative_class_id, registered_asset_id);
        let ghost pre_events = self.events@;
        self.events.push(
            Event::ForeignAssetRegistered {
                foreign_asset_id: event_asset_id,
                derivative_class_id,
            },
        );
        proof {
            lemma_events_view_push(
                pre_events,
                Event::ForeignAssetRegistered {
                    foreign_asset_id: event_asset_id,
                    derivative_class_id,
                },
            );
            let c = derivative_class_id;
            // the engine never knew this class, so neither does the registry
            assert(!pre.class_to_foreign_map().contains_key(c));
            assert(self.foreign_to_class_map() == pre.foreign_to_class_map().insert(a, c));
            assert(self.class_to_foreign_map() == pre.class_to_foreign_map().insert(c, a));
            assert forall|x: AssetIdV| #[trigger]
                self.foreign_to_class_map().contains_key(
                    x,
                ) implies self.class_to_foreign_map().contains_key(self.foreign_to_class_map()[x])
                && self.class_to_foreign_map()[self.foreign_to_class_map()[x]] == x by {
                if x != a {
                    assert(pre.foreign_to_class_map().contains_key(x));
                    let d = pre.foreign_to_class_map()[x];
                    assert(pre.class_to_foreign_map().contains_key(d));
                    assert(d != c);
                }
            }
            assert forall|d: u64| #[trigger]
                self.class_to_foreign_map().contains_key(
                    d,
                ) implies self.foreign_to_class_map().contains_key(self.class_to_foreign_map()[d])
                && self.foreign_to_class_map()[self.class_to_foreign_map()[d]] == d by {
                if d != c {
                    assert(pre.class_to_foreign_map().contains_key(d));
                    let x = pre.class_to_foreign_map()[d];
                    assert(pre.foreign_to_class_map().contains_key(x));
                    assert(x != a);
                }
            }
            assert forall|x: AssetIdV| #[trigger]
                self.foreign_to_class_map().contains_key(x) implies asset_id_foreign_form(
                x,
                self.universal_location@,
            ) by {
                if x != a {
                    assert(pre.foreign_to_class_map().contains_key(x));
                }
            }
            assert forall|d: u64| #[trigger]
                self.class_to_foreign_map().contains_key(d) implies engine.spec_classes().contains(
                d,
            ) by {
                if d != c {
                    assert(pre.class_to_foreign_map().contains_key(d));
                    assert(engine_pre.spec_classes().contains(d));
                }
            }
            assert forall|k: (u64, u64)| #[trigger]
                self.reverse_map().contains_key(k) implies engine.spec_ever_minted(k.0).contains(
                k.1,
            ) by {
                assert(pre.reverse_map().contains_key(k));
                assert(engine_pre.spec_ever_minted(k.0).contains(k.1));
                assert(engine.spec_ever_minted(k.0) == engine_pre.spec_ever_minted(k.0));
            }
            assert(self.status_map() == pre.status_map());
            assert(self.reverse_map() == pre.reverse_map());
            assert(self.derivative_maps_bijective());
        }

        Ok(derivative_class_id)
    }
}

} // verus!
