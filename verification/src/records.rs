//! The rows of the catalogue and of the orders as they are stored.
//!
//! A row holds what the store holds: words where the catalogue has closed
//! sets, signed numbers where it has counts and prices, an identifier as
//! its 128 bits, a moment as microseconds since the Unix epoch and a share
//! in hundredths of a percent. Nothing in a row has been checked.

use vstd::prelude::*;
use crate::catalog::{CatalogError, GpuClass};
use crate::names::gpu_class_named;

verus! {

/// The stored depreciation rule of a package.
#[derive(Clone, Debug)]
pub struct DepreciationRule {
    pub id: i32,
    pub package_id: u128,
    pub final_depreciated_percentage: i64,
    pub full_depreciation_hours: i32,
    pub depreciation_curve: String,
    pub created_at: i64,
    pub updated_at: i64,
}

/// One stored condition in which a package is on offer.
#[derive(Clone, Debug)]
pub struct PackageProvenance {
    pub id: i32,
    pub package_id: u128,
    pub provenance_type: String,
    pub usage_hours: i32,
    pub quantity_available: i32,
    pub is_active: bool,
    pub calculated_price_usdc: Option<i32>,
    pub discount_percentage: Option<i64>,
    pub created_at: i64,
    pub updated_at: i64,
}

/// A stored picture of a package.
#[derive(Clone, Debug)]
pub struct PackageImage {
    pub package_id: u128,
    pub filename: String,
    pub title: String,
    pub description: String,
}

/// A stored package.
#[derive(Clone, Debug)]
pub struct Package {
    pub id: u128,
    pub name: String,
    pub sku: Option<String>,
    pub description: String,
    pub hardware_description: String,
    pub cpu_cores: i16,
    pub ram_gb: i16,
    pub storage_gb: i32,
    pub gpu_class: String,
    pub gpu_count: i16,
    pub vram_gb: i16,
    pub setup_price_usdc: i32,
    pub monthly_price_usdc: i32,
    pub availability_type: String,
    pub availability_value: Option<i32>,
    pub is_active: bool,
    pub created_at: i64,
}

impl Package {
    /// The accelerator that the stored word names; a word that names none is
    /// an error, not some accelerator.
    pub fn gpu_class_enum(&self) -> (class: Result<GpuClass, CatalogError>)
        ensures
            class == match gpu_class_named(self.gpu_class@) {
                Some(named) => Ok::<GpuClass, CatalogError>(named),
                None => Err::<GpuClass, CatalogError>(CatalogError::UnknownGpuClass),
            },
    {
        match GpuClass::named(self.gpu_class.as_str()) {
            Some(named) => Ok(named),
            None => Err(CatalogError::UnknownGpuClass),
        }
    }
}

/// A stored order.
#[derive(Clone, Debug)]
pub struct ServerOrder {
    pub id: u128,
    pub org_id: u128,
    pub plan_cpu_cores: i16,
    pub plan_ram_gb: i16,
    pub plan_storage_gb: i32,
    pub plan_gpu: String,
    pub pq_enabled: bool,
    pub notes: Option<String>,
    pub status: String,
    pub created_at: i64,
}

} // verus!
