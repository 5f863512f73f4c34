//! What a page shows of a package: the choices, not the wording.

use vstd::prelude::*;
use crate::catalog::{Availability, Package, Provenance, ProvenanceOption};

verus! {

/// The hours of one year of use.
pub const HOURS_PER_YEAR: u32 = 8760;

/// The share of the price, in whole percent, that is paid when equipment is
/// ordered ahead.
pub const PREORDER_DEPOSIT_PERCENT: u32 = 5;

/// How the price of a package's hardware is shown.
#[derive(Clone, Copy, Debug, PartialEq, Eq, Structural)]
pub enum PriceLabel {
    /// One price.
    Single(u32),
    /// The lowest and the highest price on offer.
    Range(u32, u32),
}

/// How the price of hardware is shown: as a range where both of its ends are
/// known and differ, and else as the price of new equipment.
pub fn price_label(
    min_price: Option<u32>,
    max_price: Option<u32>,
    setup_price: u32,
) -> (label: PriceLabel)
    ensures
        label == match (min_price, max_price) {
            (Some(lowest), Some(highest)) => if lowest != highest {
                PriceLabel::Range(lowest, highest)
            } else {
                PriceLabel::Single(setup_price)
            },
            _ => PriceLabel::Single(setup_price),
        },
{
    match (min_price, max_price) {
        (Some(lowest), Some(highest)) => {
            if lowest != highest {
                PriceLabel::Range(lowest, highest)
            } else {
                PriceLabel::Single(setup_price)
            }
        },
        _ => PriceLabel::Single(setup_price),
    }
}

impl Package {
    /// How the price of the package's hardware is shown.
    pub fn price_label(&self) -> (label: PriceLabel)
        ensures
            label == match (self.min_price_usdc, self.max_price_usdc) {
                (Some(lowest), Some(highest)) => if lowest != highest {
                    PriceLabel::Range(lowest, highest)
                } else {
                    PriceLabel::Single(self.setup_price_usdc)
                },
                _ => PriceLabel::Single(self.setup_price_usdc),
            },
    {
        price_label(self.min_price_usdc, self.max_price_usdc, self.setup_price_usdc)
    }
}

/// When an order is paid for.
#[derive(Clone, Copy, Debug, PartialEq, Eq, Structural)]
pub enum PaymentPolicy {
    /// All of the price with the order.
    Full,
    /// A share of the price with the order, in whole percent, and the rest
    /// before the build.
    Deposit { percent: u32 },
}

/// When an order is paid for: equipment that is ordered ahead takes a
/// deposit, all other equipment is paid in full.
pub fn payment_policy(availability: Availability) -> (policy: PaymentPolicy)
    ensures
        policy == match availability {
            Availability::Preorder => PaymentPolicy::Deposit { percent: PREORDER_DEPOSIT_PERCENT },
            Availability::InStock => PaymentPolicy::Full,
            Availability::Build { .. } => PaymentPolicy::Full,
        },
{
    match availability {
        Availability::Preorder => PaymentPolicy::Deposit { percent: PREORDER_DEPOSIT_PERCENT },
        Availability::InStock | Availability::Build { .. } => PaymentPolicy::Full,
    }
}

/// What a card says of the conditions in which a package is on offer.
#[derive(Clone, Copy, Debug, PartialEq, Eq, Structural)]
pub enum ProvenanceSummary {
    /// More than one option: their number.
    Options(usize),
    /// New equipment only, or no option at all.
    New,
    /// Used equipment only, with its hours of use.
    Used { hours: u32 },
}

/// What a card says of `options`.
pub open spec fn summary_of(options: Seq<ProvenanceOption>) -> ProvenanceSummary {
    if options.len() > 1 {
        ProvenanceSummary::Options(options.len() as usize)
    } else if options.len() == 1 {
        match options[0].provenance_type {
            Provenance::New => ProvenanceSummary::New,
            Provenance::Used { hours } => ProvenanceSummary::Used { hours },
        }
    } else {
        ProvenanceSummary::New
    }
}

/// What a card says of the conditions in which a package is on offer.
pub fn provenance_summary(options: &Vec<ProvenanceOption>) -> (summary: ProvenanceSummary)
    ensures
        summary == summary_of(options@),
{
    if options.len() > 1 {
        ProvenanceSummary::Options(options.len())
    } else if options.len() == 1 {
        match options[0].provenance_type {
            Provenance::New => ProvenanceSummary::New,
            Provenance::Used { hours } => ProvenanceSummary::Used { hours },
        }
    } else {
        ProvenanceSummary::New
    }
}

/// How the use of a unit is worded.
#[derive(Clone, Copy, Debug, PartialEq, Eq, Structural)]
pub enum UsageLabel {
    /// Never used.
    BrandNew,
    /// Used for less than a year: the hours.
    Hours(u32),
    /// Used for a year or more: the hours, to be worded in years.
    Years { hours: u32 },
}

/// How the use of a unit is worded: in hours below one year of use, in
/// years from there on.
pub fn usage_label(provenance: Provenance) -> (label: UsageLabel)
    ensures
        label == match provenance {
            Provenance::New => UsageLabel::BrandNew,
            Provenance::Used { hours } => if hours < HOURS_PER_YEAR {
                UsageLabel::Hours(hours)
            } else {
                UsageLabel::Years { hours }
            },
        },
{
    match provenance {
        Provenance::New => UsageLabel::BrandNew,
        Provenance::Used { hours } => {
            if hours < HOURS_PER_YEAR {
                UsageLabel::Hours(hours)
            } else {
                UsageLabel::Years { hours }
            }
        },
    }
}

/// Where a package stands among all packages, and its neighbours.
#[derive(Clone, Copy, Debug, PartialEq, Eq, Structural)]
pub struct Navigation {
    /// The index of the package before, the last one for the first.
    pub previous: usize,
    /// The index of the package after, the first one for the last.
    pub next: usize,
    /// The place of the package, counted from one.
    pub position: usize,
    /// The number of packages.
    pub total: usize,
}

/// The first place at which `sku` stands in `skus`, if it stands there.
pub open spec fn is_first_place(place: int, skus: Seq<String>, sku: Seq<char>) -> bool {
    &&& 0 <= place < skus.len()
    &&& skus[place]@ == sku
    &&& forall|i: int| 0 <= i < place ==> skus[i]@ != sku
}

/// The navigation from the place `index` among `total` packages: the
/// neighbours on a ring.
pub open spec fn navigation_at(index: int, total: int) -> Navigation {
    Navigation {
        previous: (if index == 0 {
            total - 1
        } else {
            index - 1
        }) as usize,
        next: (if index == total - 1 {
            0
        } else {
            index + 1
        }) as usize,
        position: (index + 1) as usize,
        total: total as usize,
    }
}

/// The first place at which `sku` stands in `skus`.
pub fn position_of(skus: &Vec<String>, sku: &str) -> (found: Option<usize>)
    ensures
        match found {
            Some(place) => is_first_place(place as int, skus@, sku@),
            None => forall|i: int| 0 <= i < skus@.len() ==> skus@[i]@ != sku@,
        },
{
    let mut seen: usize = 0;
    while seen < skus.len()
        invariant
            seen <= skus@.len(),
            forall|i: int| 0 <= i < seen ==> skus@[i]@ != sku@,
        decreases skus@.len() - seen,
    {
        if crate::names::same_text(skus[seen].as_str(), sku) {
            return Some(seen);
        }
        seen = seen + 1;
    }
    None
}

/// The neighbours of the package at `index` among `total` packages, which
/// stand on a ring, and its place counted from one.
pub fn neighbours(index: usize, total: usize) -> (navigation: Navigation)
    requires
        index < total,
    ensures
        navigation == navigation_at(index as int, total as int),
        navigation.previous < total,
        navigation.next < total,
{
    let previous = if index == 0 {
        total - 1
    } else {
        index - 1
    };
    let next = if index == total - 1 {
        0
    } else {
        index + 1
    };
    Navigation { previous, next, position: index + 1, total }
}

/// The navigation from the package `sku` among the packages `skus`, if it
/// is one of them.
pub fn navigation(skus: &Vec<String>, sku: &str) -> (found: Option<Navigation>)
    ensures
        match found {
            Some(navigation) => exists|place: int|
                is_first_place(place, skus@, sku@) && navigation == navigation_at(
                    place,
                    skus@.len() as int,
                ),
            None => forall|i: int| 0 <= i < skus@.len() ==> skus@[i]@ != sku@,
        },
{
    match position_of(skus, sku) {
        Some(place) => Some(neighbours(place, skus.len())),
        None => None,
    }
}

/// Going to the next package and back again leads to where one was, and so
/// does going back and on again.
pub proof fn law_neighbours_undo_each_other(index: int, total: int)
    requires
        0 <= index < total <= usize::MAX,
    ensures
        navigation_at(navigation_at(index, total).next as int, total).previous == index,
        navigation_at(navigation_at(index, total).previous as int, total).next == index,
{
}

} // verus!
