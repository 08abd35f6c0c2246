//! The locator model: hierarchical asset locators and instance locators.
//!
//! An asset's reserve location is a path of [`Junction`]s together with a
//! `parents` count saying how many levels to ascend in the addressing tree
//! before following the path.  Opaque payloads (account keys, general keys)
//! are carried as plain integer key values: this engine only ever moves them
//! and compares them for equality.

use vstd::prelude::*;

verus! {

/// The longest interior path a locator may carry.
pub const MAX_JUNCTIONS: usize = 8;

/// One segment of a hierarchical asset-reserve locator.
#[derive(Clone, Copy, PartialEq, Eq, Structural, Debug)]
pub enum Junction {
    /// A sibling or child chain, by index.
    Parachain(u32),
    /// A module instance on the chain addressed so far.
    PalletInstance(u8),
    /// A numeric index below the location addressed so far.
    GeneralIndex(u128),
    /// An account identified by a 32-byte scheme, carried as a key value.
    AccountId32 { network: Option<u32>, id: u64 },
    /// An account identified by a 20-byte scheme, carried as a key value.
    AccountKey20 { network: Option<u32>, key: u64 },
    /// An opaque key of the given significant length, carried as a key value.
    GeneralKey { length: u8, data: u64 },
    /// A global consensus system, by network identifier.
    GlobalConsensus(u32),
}

/// The interior path of a locator: an ordered sequence of junctions.
#[derive(Clone, Debug)]
pub struct Junctions {
    pub segments: Vec<Junction>,
}

impl View for Junctions {
    type V = Seq<Junction>;

    open spec fn view(&self) -> Seq<Junction> {
        self.segments@
    }
}

/// Copies a junction path segment by segment.
fn copy_junctions(v: &Vec<Junction>) -> (r: Vec<Junction>)
    ensures
        r@ == v@,
{
    let mut out: Vec<Junction> = Vec::new();
    let mut i: usize = 0;
    while i < v.len()
        invariant
            i <= v@.len(),
            out@ == v@.subrange(0, i as int),
        decreases v@.len() - i,
    {
        out.push(v[i]);
        assert(out@ =~= v@.subrange(0, i + 1 as int));
        i = i + 1;
    }
    assert(out@ =~= v@);
    out
}

impl Junctions {
    /// The empty interior path.
    pub fn here() -> (r: Junctions)
        ensures
            r@ == Seq::<Junction>::empty(),
    {
        let r = Junctions { segments: Vec::new() };
        assert(r@ =~= Seq::<Junction>::empty());
        r
    }

    /// Builds an interior path from its segments.
    pub fn from_vec(segments: Vec<Junction>) -> (r: Junctions)
        requires
            segments@.len() <= MAX_JUNCTIONS,
        ensures
            r@ == segments@,
    {
        Junctions { segments }
    }

    /// The number of segments in the path.
    pub fn len(&self) -> (n: usize)
        ensures
            n == self@.len(),
    {
        self.segments.len()
    }

    /// The segment at `index`, if the path is that long.
    pub fn at(&self, index: usize) -> (r: Option<&Junction>)
        ensures
            match r {
                Some(j) => index < self@.len() && *j == self@[index as int],
                None => index >= self@.len(),
            },
    {
        if index < self.segments.len() {
            Some(&self.segments[index])
        } else {
            None
        }
    }

    /// Appends a segment, refusing to grow the path beyond [`MAX_JUNCTIONS`].
    pub fn push(&mut self, junction: Junction) -> (r: Result<(), Junction>)
        ensures
            match r {
                Ok(()) => old(self)@.len() < MAX_JUNCTIONS && final(self)@ == old(self)@.push(
                    junction,
                ),
                Err(j) => old(self)@.len() >= MAX_JUNCTIONS && j == junction && final(self)@ == old(
                    self,
                )@,
            },
    {
        if self.segments.len() < MAX_JUNCTIONS {
            self.segments.push(junction);
            Ok(())
        } else {
            Err(junction)
        }
    }

    /// Structural equality of two paths.
    pub fn eq_junctions(&self, other: &Junctions) -> (r: bool)
        ensures
            r == (self@ == other@),
    {
        if self.segments.len() != other.segments.len() {
            return false;
        }
        let mut i: usize = 0;
        while i < self.segments.len()
            invariant
                i <= self@.len(),
                self@.len() == other@.len(),
                forall|j: int| 0 <= j < i ==> self@[j] == other@[j],
            decreases self@.len() - i,
        {
            if self.segments[i] != other.segments[i] {
                return false;
            }
            i = i + 1;
        }
        assert(self@ =~= other@);
        true
    }

    /// An exact copy of the path.
    pub fn duplicate(&self) -> (r: Junctions)
        ensures
            r@ == self@,
    {
        Junctions { segments: copy_junctions(&self.segments) }
    }
}

/// The mathematical value of a locator: an ascent count and an interior path.
pub struct MultiLocationV {
    pub parents: nat,
    pub interior: Seq<Junction>,
}

/// A hierarchical asset-reserve locator.
#[derive(Clone, Debug)]
pub struct MultiLocation {
    /// How many levels to ascend before interpreting the interior path.
    pub parents: u8,
    /// The interior path.
    pub interior: Junctions,
}

impl View for MultiLocation {
    type V = MultiLocationV;

    open spec fn view(&self) -> MultiLocationV {
        MultiLocationV { parents: self.parents as nat, interior: self.interior@ }
    }
}

/// Rewriting a locator relative to `context`, the universal location of this
/// chain: while the locator ascends and its first interior segment retraces
/// the step it would ascend past, drop both.  A locator that ascends higher
/// than `context` reaches is returned unchanged.
pub open spec fn spec_simplify(loc: MultiLocationV, context: Seq<Junction>) -> MultiLocationV
    decreases loc.parents,
{
    if loc.parents == 0 || context.len() < loc.parents {
        loc
    } else if loc.interior.len() > 0 && context[context.len() - loc.parents] == loc.interior[0] {
        spec_simplify(
            MultiLocationV {
                parents: (loc.parents - 1) as nat,
                interior: loc.interior.drop_first(),
            },
            context,
        )
    } else {
        loc
    }
}

/// A locator already in canonical form relative to `context`.
pub open spec fn is_simplified(loc: MultiLocationV, context: Seq<Junction>) -> bool {
    spec_simplify(loc, context) == loc
}

/// Rewriting is idempotent: a simplified locator simplifies to itself.
pub proof fn lemma_simplify_idempotent(loc: MultiLocationV, context: Seq<Junction>)
    ensures
        spec_simplify(spec_simplify(loc, context), context) == spec_simplify(loc, context),
    decreases loc.parents,
{
    if loc.parents == 0 || context.len() < loc.parents {
    } else if loc.interior.len() > 0 && context[context.len() - loc.parents] == loc.interior[0] {
        lemma_simplify_idempotent(
            MultiLocationV {
                parents: (loc.parents - 1) as nat,
                interior: loc.interior.drop_first(),
            },
            context,
        );
    } else {
    }
}

impl MultiLocation {
    /// Builds a locator from its ascent count and interior path.
    pub fn from_parts(parents: u8, interior: Junctions) -> (r: MultiLocation)
        ensures
            r@ == (MultiLocationV { parents: parents as nat, interior: interior@ }),
    {
        MultiLocation { parents, interior }
    }

    /// Structural equality of two locators.
    pub fn eq_loc(&self, other: &MultiLocation) -> (r: bool)
        ensures
            r == (self@ == other@),
    {
        self.parents == other.parents && self.interior.eq_junctions(&other.interior)
    }

    /// An exact copy of the locator.
    pub fn duplicate(&self) -> (r: MultiLocation)
        ensures
            r@ == self@,
    {
        MultiLocation { parents: self.parents, interior: self.interior.duplicate() }
    }

    /// Rewrites this locator into canonical form relative to `context`.
    /// See [`spec_simplify`].
    pub fn simplify(&mut self, context: &Junctions)
        ensures
            final(self)@ == spec_simplify(old(self)@, context@),
    {
        if context.segments.len() < self.parents as usize {
            return ;
        }
        while self.parents > 0
            invariant
                context@.len() >= self.parents as nat,
                spec_simplify(self@, context@) == spec_simplify(old(self)@, context@),
            ensures
                spec_simplify(old(self)@, context@) == self@,
            decreases self.parents,
        {
            let idx = context.segments.len() - self.parents as usize;
            if self.interior.segments.len() > 0 && self.interior.segments[0]
                == context.segments[idx] {
                let ghost pre = self@;
                let _ = self.interior.segments.remove(0);
                self.parents = self.parents - 1;
                proof {
                    assert(self@.interior =~= pre.interior.drop_first());
                    assert(spec_simplify(pre, context@) == spec_simplify(self@, context@));
                }
            } else {
                assert(spec_simplify(self@, context@) == self@);
                break ;
            }
        }
    }
}

/// The mathematical value of an asset identifier.
pub enum AssetIdV {
    /// An asset identified by its reserve location.
    Concrete(MultiLocationV),
    /// An asset identified by an opaque key value.
    Abstract(u128),
}

/// An asset identifier: either a reserve location or an opaque key.
#[derive(Clone, Debug)]
pub enum AssetId {
    /// An asset identified by its reserve location.
    Concrete(MultiLocation),
    /// An asset identified by an opaque key value.
    Abstract(u128),
}

impl View for AssetId {
    type V = AssetIdV;

    open spec fn view(&self) -> AssetIdV {
        match self {
            AssetId::Concrete(loc) => AssetIdV::Concrete(loc@),
            AssetId::Abstract(key) => AssetIdV::Abstract(*key),
        }
    }
}

impl AssetId {
    /// Structural equality of two asset identifiers.
    pub fn eq_id(&self, other: &AssetId) -> (r: bool)
        ensures
            r == (self@ == other@),
    {
        match (self, other) {
            (AssetId::Concrete(a), AssetId::Concrete(b)) => a.eq_loc(b),
            (AssetId::Abstract(a), AssetId::Abstract(b)) => *a == *b,
            _ => false,
        }
    }

    /// An exact copy of the asset identifier.
    pub fn duplicate(&self) -> (r: AssetId)
        ensures
            r@ == self@,
    {
        match self {
            AssetId::Concrete(loc) => AssetId::Concrete(loc.duplicate()),
            AssetId::Abstract(key) => AssetId::Abstract(*key),
        }
    }
}

/// An instance locator: identifies one NFT within an asset class.  Fixed-width
/// encodings are carried as plain integer key values of the matching range.
#[derive(Clone, Copy, PartialEq, Eq, Structural, Debug)]
pub enum AssetInstance {
    /// A numeric instance index.
    Index(u128),
    /// A 4-byte fixed-width instance key.
    Array4(u32),
    /// An 8-byte fixed-width instance key.
    Array8(u64),
    /// A 16-byte fixed-width instance key.
    Array16(u128),
    /// A 32-byte fixed-width instance key, carried as a key value.
    Array32(u128),
}

impl View for AssetInstance {
    type V = AssetInstance;

    open spec fn view(&self) -> AssetInstance {
        *self
    }
}

/// Whether an asset can be fungible; this engine only handles the
/// non-fungible case.
#[derive(Clone, Copy, PartialEq, Eq, Structural, Debug)]
pub enum Fungibility {
    /// A fungible amount.
    Fungible(u128),
    /// One specific instance.
    NonFungible(AssetInstance),
}

/// The mathematical value of an asset paired with its fungibility.
pub struct MultiAssetV {
    pub id: AssetIdV,
    pub fun: Fungibility,
}

/// An asset paired with what of it is being moved.
#[derive(Clone, Debug)]
pub struct MultiAsset {
    /// The asset's identifier.
    pub id: AssetId,
    /// The amount or instance being moved.
    pub fun: Fungibility,
}

impl View for MultiAsset {
    type V = MultiAssetV;

    open spec fn view(&self) -> MultiAssetV {
        MultiAssetV { id: self.id@, fun: self.fun }
    }
}

impl MultiAsset {
    /// An exact copy of the asset.
    pub fn duplicate(&self) -> (r: MultiAsset)
        ensures
            r@ == self@,
    {
        MultiAsset { id: self.id.duplicate(), fun: self.fun }
    }
}

/// An asset identifier as delivered from the outside, tagged with the
/// encoding version it arrived in.
#[derive(Clone, Debug)]
pub enum VersionedAssetId {
    /// An identifier in a previous encoding; `Some` when it has an exact
    /// equivalent in the current encoding, `None` when it does not.
    V2(Option<AssetId>),
    /// An identifier in the current encoding.
    V3(AssetId),
}

impl VersionedAssetId {
    /// The current-encoding value of this identifier, if it has one.
    pub open spec fn spec_as_current(&self) -> Option<AssetIdV> {
        match self {
            VersionedAssetId::V3(id) => Some(id@),
            VersionedAssetId::V2(Some(id)) => Some(id@),
            VersionedAssetId::V2(None) => None,
        }
    }

    /// Converts this identifier into the current encoding, if possible.
    pub fn try_as_current(self) -> (r: Option<AssetId>)
        ensures
            match r {
                Some(id) => self.spec_as_current() == Some(id@),
                None => self.spec_as_current() is None,
            },
    {
        match self {
            VersionedAssetId::V3(id) => Some(id),
            VersionedAssetId::V2(Some(id)) => Some(id),
            VersionedAssetId::V2(None) => None,
        }
    }
}

} // verus!
