//! The packages on offer, their provenance options and the orders placed.

use vstd::prelude::*;
use crate::pricing::{DepreciationRule, Percentage};

verus! {

/// Why stored data could not be read as a part of the catalogue.
#[derive(Clone, Copy, Debug, PartialEq, Eq, Structural)]
pub enum CatalogError {
    /// The word for the accelerator names none.
    UnknownGpuClass,
    /// The word for the curve names none.
    UnknownCurve,
    /// The word for the availability names none.
    UnknownAvailability,
    /// The word for the provenance names none.
    UnknownProvenance,
    /// A count, a price or a share is negative or too large for its field.
    OutOfRange,
    /// The depreciation rule is not valid.
    InvalidRule,
}

/// The accelerator that a server is built around.
#[allow(non_camel_case_types)]
#[derive(Clone, Copy, Debug, PartialEq, Eq, Structural)]
pub enum GpuClass {
    /// A server without an accelerator.
    NoGpu,
    L4,
    A100_40G,
    A100_80G,
    H100_80G,
    RTX_4090,
    RTX_5090,
    Radeon_8060S,
}

/// A picture of a package.
#[derive(Clone, Debug)]
pub struct PackageImage {
    pub filename: String,
    pub title: String,
    pub description: String,
}

/// When a package can be delivered.
#[derive(Clone, Copy, Debug, PartialEq, Eq, Structural)]
pub enum Availability {
    Preorder,
    InStock,
    Build { hours: u16 },
}

/// The condition of a unit on offer.
#[derive(Clone, Copy, Debug, PartialEq, Eq, Structural)]
pub enum Provenance {
    New,
    Used { hours: u32 },
}

/// One condition in which a package can be bought, with its price.
#[derive(Clone, Copy, Debug, PartialEq, Eq, Structural)]
pub struct ProvenanceOption {
    pub provenance_type: Provenance,
    pub quantity_available: u32,
    pub calculated_price: u32,
    pub discount_percentage: Option<Percentage>,
}

/// The prices of `options`, in their order.
pub open spec fn prices_of(options: Seq<ProvenanceOption>) -> Seq<int> {
    Seq::new(options.len(), |i: int| options[i].calculated_price as int)
}

/// `price` is one of `prices` and none of them is lower.
pub open spec fn is_lowest(price: int, prices: Seq<int>) -> bool {
    &&& exists|i: int| 0 <= i < prices.len() && prices[i] == price
    &&& forall|i: int| 0 <= i < prices.len() ==> price <= prices[i]
}

/// `price` is one of `prices` and none of them is higher.
pub open spec fn is_highest(price: int, prices: Seq<int>) -> bool {
    &&& exists|i: int| 0 <= i < prices.len() && prices[i] == price
    &&& forall|i: int| 0 <= i < prices.len() ==> prices[i] <= price
}

/// `range` is the price range of a package with these options: the lowest
/// and the highest of their prices, and twice `fallback_price` where there is
/// no option.
pub open spec fn is_price_range(
    range: (int, int),
    options: Seq<ProvenanceOption>,
    fallback_price: int,
) -> bool {
    if options.len() == 0 {
        range == (fallback_price, fallback_price)
    } else {
        is_lowest(range.0, prices_of(options)) && is_highest(range.1, prices_of(options))
    }
}

/// The lowest price among `options`, which are not empty.
pub fn lowest_price(options: &Vec<ProvenanceOption>) -> (lowest: u32)
    requires
        options@.len() > 0,
    ensures
        is_lowest(lowest as int, prices_of(options@)),
{
    let mut lowest: u32 = options[0].calculated_price;
    let mut seen: usize = 1;
    assert(prices_of(options@)[0] == lowest);
    while seen < options.len()
        invariant
            1 <= seen <= options@.len(),
            exists|i: int| 0 <= i < seen && prices_of(options@)[i] == lowest,
            forall|i: int| 0 <= i < seen ==> lowest <= prices_of(options@)[i],
        decreases options@.len() - seen,
    {
        let price: u32 = options[seen].calculated_price;
        assert(prices_of(options@)[seen as int] == price);
        if price < lowest {
            lowest = price;
        }
        seen = seen + 1;
    }
    lowest
}

/// The highest price among `options`, which are not empty.
pub fn highest_price(options: &Vec<ProvenanceOption>) -> (highest: u32)
    requires
        options@.len() > 0,
    ensures
        is_highest(highest as int, prices_of(options@)),
{
    let mut highest: u32 = options[0].calculated_price;
    let mut seen: usize = 1;
    assert(prices_of(options@)[0] == highest);
    while seen < options.len()
        invariant
            1 <= seen <= options@.len(),
            exists|i: int| 0 <= i < seen && prices_of(options@)[i] == highest,
            forall|i: int| 0 <= i < seen ==> prices_of(options@)[i] <= highest,
        decreases options@.len() - seen,
    {
        let price: u32 = options[seen].calculated_price;
        assert(prices_of(options@)[seen as int] == price);
        if price > highest {
            highest = price;
        }
        seen = seen + 1;
    }
    highest
}

/// The lowest and the highest price among `options`, each found by a pass
/// of its own; twice `fallback_price` where there is no option.
pub fn price_range(options: &Vec<ProvenanceOption>, fallback_price: u32) -> (range: (u32, u32))
    ensures
        is_price_range((range.0 as int, range.1 as int), options@, fallback_price as int),
        range.0 <= range.1,
        forall|i: int|
            0 <= i < options@.len() ==> range.0 <= #[trigger] options@[i].calculated_price
                <= range.1,
{
    if options.len() == 0 {
        return (fallback_price, fallback_price);
    }
    let lowest = lowest_price(options);
    let highest = highest_price(options);
    proof {
        law_range_encloses_prices(
            (lowest as int, highest as int),
            options@,
            fallback_price as int,
        );
    }
    (lowest, highest)
}

/// A price range is in order, and where there are options every one of
/// their prices lies in it.
pub proof fn law_range_encloses_prices(
    range: (int, int),
    options: Seq<ProvenanceOption>,
    fallback_price: int,
)
    requires
        is_price_range(range, options, fallback_price),
    ensures
        range.0 <= range.1,
        forall|i: int|
            0 <= i < options.len() ==> range.0 <= #[trigger] options[i].calculated_price
                <= range.1,
{
    let prices = prices_of(options);
    if options.len() > 0 {
        assert(range.0 <= prices[0] <= range.1);
        assert forall|i: int| 0 <= i < options.len() implies range.0
            <= #[trigger] options[i].calculated_price <= range.1 by {
            assert(prices[i] == options[i].calculated_price);
        }
    }
}

/// Options have one price range only.
pub proof fn law_range_is_unique(
    first: (int, int),
    second: (int, int),
    options: Seq<ProvenanceOption>,
    fallback_price: int,
)
    requires
        is_price_range(first, options, fallback_price),
        is_price_range(second, options, fallback_price),
    ensures
        first == second,
{
}

/// A server that can be ordered, with the conditions in which it is on
/// offer.
#[derive(Clone, Debug)]
pub struct Package {
    pub id: u128,
    pub name: String,
    pub sku: String,
    pub description: String,
    pub hardware_description: String,
    pub cpu_cores: u16,
    pub ram_gb: u16,
    pub storage_gb: u32,
    pub gpu_class: GpuClass,
    pub gpu_count: u16,
    pub vram_gb: u16,
    /// The price of new equipment.
    pub setup_price_usdc: u32,
    /// The monthly price of hosting, which does not depend on use.
    pub monthly_price_usdc: u32,
    pub depreciation_rule: Option<DepreciationRule>,
    pub images: Vec<PackageImage>,
    pub availability: Availability,
    pub provenances: Vec<ProvenanceOption>,
    /// The lowest price among the provenance options.
    pub min_price_usdc: Option<u32>,
    /// The highest price among the provenance options.
    pub max_price_usdc: Option<u32>,
}

impl Package {
    /// Whether one of `options` is used equipment.
    pub open spec fn any_used(options: Seq<ProvenanceOption>) -> bool {
        exists|i: int| 0 <= i < options.len() && #[trigger] options[i].provenance_type is Used
    }

    /// Sets the two ends of the price range from the provenance options, or
    /// from the price of new equipment where there is none, and changes
    /// nothing else.
    pub fn calculate_price_range(&mut self)
        ensures
            final(self).min_price_usdc matches Some(lowest) && final(self).max_price_usdc
                matches Some(highest) && is_price_range(
                (lowest as int, highest as int),
                old(self).provenances@,
                old(self).setup_price_usdc as int,
            ),
            *final(self) == (Package {
                min_price_usdc: final(self).min_price_usdc,
                max_price_usdc: final(self).max_price_usdc,
                ..*old(self)
            }),
    {
        let range = price_range(&self.provenances, self.setup_price_usdc);
        self.min_price_usdc = Some(range.0);
        self.max_price_usdc = Some(range.1);
    }

    /// The lowest price on offer: the lower end of the price range, or the
    /// price of new equipment while no range has been set.
    pub fn get_min_price(&self) -> (price: u32)
        ensures
            price == match self.min_price_usdc {
                Some(lowest) => lowest,
                None => self.setup_price_usdc,
            },
    {
        match self.min_price_usdc {
            Some(lowest) => lowest,
            None => self.setup_price_usdc,
        }
    }

    /// The highest price on offer: the upper end of the price range, or the
    /// price of new equipment while no range has been set.
    pub fn get_max_price(&self) -> (price: u32)
        ensures
            price == match self.max_price_usdc {
                Some(highest) => highest,
                None => self.setup_price_usdc,
            },
    {
        match self.max_price_usdc {
            Some(highest) => highest,
            None => self.setup_price_usdc,
        }
    }

    /// The price at which the package's rule puts a unit of the given
    /// provenance: the price of new equipment for a new unit and where the
    /// package has no rule, and else the depreciated price after the unit's
    /// hours of use.
    pub open spec fn rule_price(&self, provenance: Provenance) -> Option<int> {
        match (provenance, self.depreciation_rule) {
            (Provenance::Used { hours }, Some(rule)) => rule.depreciated_price(
                self.setup_price_usdc as int,
                hours as int,
            ),
            _ => Some(self.setup_price_usdc as int),
        }
    }

    /// The price at which the package's rule puts a unit of the given
    /// provenance; `None` where the rule's exponential curve has no rational
    /// value at the unit's hours of use.
    pub fn provenance_price(&self, provenance: Provenance) -> (price: Option<u32>)
        requires
            self.depreciation_rule matches Some(rule) ==> rule.is_valid(),
        ensures
            match price {
                Some(amount) => self.rule_price(provenance) == Some(amount as int),
                None => self.rule_price(provenance) is None,
            },
            price matches Some(amount) ==> amount <= self.setup_price_usdc,
    {
        match (provenance, self.depreciation_rule) {
            (Provenance::Used { hours }, Some(rule)) => rule.calculate_depreciated_price(
                self.setup_price_usdc,
                hours,
            ),
            _ => Some(self.setup_price_usdc),
        }
    }

    /// Whether the package is on offer as used equipment.
    pub fn has_used_options(&self) -> (found: bool)
        ensures
            found == Package::any_used(self.provenances@),
    {
        let mut seen: usize = 0;
        while seen < self.provenances.len()
            invariant
                seen <= self.provenances@.len(),
                forall|i: int| 0 <= i < seen ==> !(self.provenances@[i].provenance_type is Used),
            decreases self.provenances@.len() - seen,
        {
            match self.provenances[seen].provenance_type {
                Provenance::Used { .. } => {
                    return true;
                },
                Provenance::New => {},
            }
            seen = seen + 1;
        }
        false
    }
}

/// The machine that an order asks for.
#[derive(Clone, Copy, Debug, PartialEq, Eq, Structural)]
pub struct Plan {
    pub cpu_cores: u16,
    pub ram_gb: u16,
    pub storage_gb: u32,
    pub gpu: GpuClass,
}

/// An order as it is kept.
#[derive(Clone, Debug)]
pub struct ServerOrder {
    pub id: u128,
    pub plan: Plan,
    pub pq_enabled: bool,
    pub notes: Option<String>,
}

/// What a customer sends to place an order.
#[derive(Clone, Debug)]
pub struct CreateOrderRequest {
    pub plan: Plan,
    pub pq_enabled: bool,
    pub notes: Option<String>,
}

/// What the customer gets back for an order.
#[derive(Clone, Debug)]
pub struct CreateOrderResponse {
    pub order_id: u128,
    pub status: String,
}

/// What a customer sends to open an account.
#[derive(Clone, Debug)]
pub struct AuthSignupRequest {
    pub email: String,
    pub password: String,
}

/// What a customer sends to log in.
#[derive(Clone, Debug)]
pub struct AuthLoginRequest {
    pub email: String,
    pub password: String,
}

/// The token of a session.
#[derive(Clone, Debug)]
pub struct AuthTokenResponse {
    pub token: String,
}

/// An order as a list of orders shows it.
#[derive(Clone, Debug)]
pub struct OrderSummary {
    pub id: u128,
    pub plan: Plan,
    pub status: String,
}

} // verus!
