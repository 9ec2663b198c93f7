//! Status of downloadable Speech assets (`AssetInventory.Status`).

use std::cmp::Ordering;

use vstd::prelude::*;
use vstd::std_specs::cmp::PartialOrdSpecImpl;

verus! {

/// `AssetInventory.Status`, ordered from least to most available.
#[derive(Debug, Clone, Copy, PartialEq, Eq, Ord, Hash, Structural)]
pub enum AssetInventoryStatus {
    Unsupported,
    Supported,
    Downloading,
    Installed,
}

/// The status a raw framework value denotes; unknown values are
/// `Unsupported`.
pub open spec fn asset_inventory_status_of(raw: i32) -> AssetInventoryStatus {
    if raw == 1 {
        AssetInventoryStatus::Supported
    } else if raw == 2 {
        AssetInventoryStatus::Downloading
    } else if raw == 3 {
        AssetInventoryStatus::Installed
    } else {
        AssetInventoryStatus::Unsupported
    }
}

/// How available a status says the assets are: unsupported 0, supported 1,
/// downloading 2, installed 3.
pub open spec fn status_rank(s: AssetInventoryStatus) -> int {
    match s {
        AssetInventoryStatus::Unsupported => 0,
        AssetInventoryStatus::Supported => 1,
        AssetInventoryStatus::Downloading => 2,
        AssetInventoryStatus::Installed => 3,
    }
}

/// Statuses compare by their rank.
pub open spec fn compare_statuses(a: AssetInventoryStatus, b: AssetInventoryStatus) -> Ordering {
    if status_rank(a) < status_rank(b) {
        Ordering::Less
    } else if status_rank(a) == status_rank(b) {
        Ordering::Equal
    } else {
        Ordering::Greater
    }
}

impl AssetInventoryStatus {
    /// The rank of this status.
    pub fn rank(self) -> (r: u8)
        ensures
            r == status_rank(self),
    {
        match self {
            AssetInventoryStatus::Unsupported => 0,
            AssetInventoryStatus::Supported => 1,
            AssetInventoryStatus::Downloading => 2,
            AssetInventoryStatus::Installed => 3,
        }
    }

    pub fn from_raw(raw: i32) -> (r: Self)
        ensures
            r == asset_inventory_status_of(raw),
    {
        match raw {
            1 => AssetInventoryStatus::Supported,
            2 => AssetInventoryStatus::Downloading,
            3 => AssetInventoryStatus::Installed,
            _ => AssetInventoryStatus::Unsupported,
        }
    }
}

impl PartialOrd for AssetInventoryStatus {
    fn partial_cmp(&self, other: &Self) -> (r: Option<Ordering>) {
        let a = self.rank();
        let b = other.rank();
        if a < b {
            Some(Ordering::Less)
        } else if a == b {
            Some(Ordering::Equal)
        } else {
            Some(Ordering::Greater)
        }
    }
}

impl PartialOrdSpecImpl for AssetInventoryStatus {
    open spec fn obeys_partial_cmp_spec() -> bool {
        true
    }

    open spec fn partial_cmp_spec(&self, other: &Self) -> Option<Ordering> {
        Some(compare_statuses(*self, *other))
    }
}

/// On the raw values the framework defines (0 to 3), statuses are ordered as
/// the raw values are: a greater raw value means more available assets.
pub proof fn law_status_order_follows_raw_value(a: i32, b: i32)
    requires
        0 <= a <= 3,
        0 <= b <= 3,
    ensures
        status_rank(asset_inventory_status_of(a)) == a,
        compare_statuses(asset_inventory_status_of(a), asset_inventory_status_of(b)) == (if a < b {
            Ordering::Less
        } else if a == b {
            Ordering::Equal
        } else {
            Ordering::Greater
        }),
{
}

} // verus!

verus! {

/// The raw values of asset statuses are the framework's: supported 1,
/// downloading 2, installed 3; every other raw value reads as unsupported.
pub proof fn law_asset_status_raw_values(raw: i32)
    ensures
        asset_inventory_status_of(raw) == AssetInventoryStatus::Supported <==> raw == 1,
        asset_inventory_status_of(raw) == AssetInventoryStatus::Downloading <==> raw == 2,
        asset_inventory_status_of(raw) == AssetInventoryStatus::Installed <==> raw == 3,
        asset_inventory_status_of(raw) == AssetInventoryStatus::Unsupported <==> !(1 <= raw <= 3),
{
}

} // verus!
