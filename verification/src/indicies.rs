//! The index of each kind of item, by the kind's name.

use vstd::prelude::*;
use crate::key::CachedDataItemIndex;

verus! {

pub const Child: CachedDataItemIndex = CachedDataItemIndex::Children;
pub const OutdatedChild: CachedDataItemIndex = CachedDataItemIndex::Children;
pub const Collectible: CachedDataItemIndex = CachedDataItemIndex::Collectibles;
pub const OutdatedCollectible: CachedDataItemIndex = CachedDataItemIndex::Collectibles;
pub const Follower: CachedDataItemIndex = CachedDataItemIndex::Follower;
pub const Upper: CachedDataItemIndex = CachedDataItemIndex::Upper;
pub const AggregatedDirtyContainer: CachedDataItemIndex = CachedDataItemIndex::AggregatedDirtyContainer;
pub const AggregatedCollectible: CachedDataItemIndex = CachedDataItemIndex::AggregatedCollectible;
pub const CellData: CachedDataItemIndex = CachedDataItemIndex::CellData;
pub const CellTypeMaxIndex: CachedDataItemIndex = CachedDataItemIndex::CellTypeMaxIndex;
pub const CellDependent: CachedDataItemIndex = CachedDataItemIndex::CellDependent;
pub const OutputDependent: CachedDataItemIndex = CachedDataItemIndex::OutputDependent;
pub const CollectiblesDependent: CachedDataItemIndex = CachedDataItemIndex::CollectiblesDependent;
pub const OutputDependency: CachedDataItemIndex = CachedDataItemIndex::Dependencies;
pub const CellDependency: CachedDataItemIndex = CachedDataItemIndex::Dependencies;
pub const CollectibleDependency: CachedDataItemIndex = CachedDataItemIndex::Dependencies;
pub const OutdatedOutputDependency: CachedDataItemIndex = CachedDataItemIndex::Dependencies;
pub const OutdatedCellDependency: CachedDataItemIndex = CachedDataItemIndex::Dependencies;
pub const OutdatedCollectiblesDependency: CachedDataItemIndex = CachedDataItemIndex::Dependencies;
pub const OutdatedCollectibleDependency: CachedDataItemIndex = CachedDataItemIndex::Dependencies;

} // verus!
