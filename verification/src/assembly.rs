//! From stored rows to the catalogue.
//!
//! Every row is checked once, here. A word that names no member of its set,
//! a number that its field cannot hold and a rule that is not valid are each
//! answered with an error: nothing is replaced by a default and no number
//! wraps around.

use vstd::prelude::*;
use crate::catalog::{
    Availability,
    CatalogError,
    CreateOrderRequest,
    CreateOrderResponse,
    GpuClass,
    OrderSummary,
    Package,
    PackageImage,
    Plan,
    Provenance,
    ProvenanceOption,
};
use crate::names::{curve_named, gpu_class_named, gpu_class_word, same_text};
use crate::pricing::{DepreciationCurve, DepreciationRule, Percentage, FULL_SHARE};
use crate::records;

verus! {

/// The hours that a build takes where the row names none.
pub const DEFAULT_BUILD_HOURS: i32 = 48;

/// A stored count or price as a `u32`.
pub open spec fn natural_32(value: i32) -> Result<u32, CatalogError> {
    if value >= 0 {
        Ok(value as u32)
    } else {
        Err(CatalogError::OutOfRange)
    }
}

/// A stored count as a `u16`.
pub open spec fn natural_16(value: i16) -> Result<u16, CatalogError> {
    if value >= 0 {
        Ok(value as u16)
    } else {
        Err(CatalogError::OutOfRange)
    }
}

/// A stored share, if there is one, as a percentage.
pub open spec fn share_of(stored: Option<i64>) -> Result<Option<Percentage>, CatalogError> {
    match stored {
        None => Ok(None),
        Some(hundredths) => if 0 <= hundredths <= FULL_SHARE {
            Ok(Some(Percentage { hundredths: hundredths as u32 }))
        } else {
            Err(CatalogError::OutOfRange)
        },
    }
}

/// The rule that a stored rule stands for.
pub open spec fn rule_of(record: records::DepreciationRule) -> Result<
    DepreciationRule,
    CatalogError,
> {
    match curve_named(record.depreciation_curve@) {
        None => Err(CatalogError::UnknownCurve),
        Some(curve) => {
            let rule = DepreciationRule {
                package_id: record.package_id,
                final_depreciated_percentage: Percentage {
                    hundredths: record.final_depreciated_percentage as u32,
                },
                full_depreciation_hours: record.full_depreciation_hours as u32,
                depreciation_curve: curve,
            };
            if 0 <= record.final_depreciated_percentage <= FULL_SHARE
                && record.full_depreciation_hours > 0 && rule.is_valid() {
                Ok(rule)
            } else {
                Err(CatalogError::InvalidRule)
            }
        },
    }
}

/// The rule of a package that may have none.
pub open spec fn optional_rule_of(record: Option<records::DepreciationRule>) -> Result<
    Option<DepreciationRule>,
    CatalogError,
> {
    match record {
        None => Ok(None),
        Some(stored) => match rule_of(stored) {
            Ok(rule) => Ok(Some(rule)),
            Err(error) => Err(error),
        },
    }
}

/// The availability that a stored word and number stand for.
pub open spec fn availability_of(kind: Seq<char>, value: Option<i32>) -> Result<
    Availability,
    CatalogError,
> {
    if kind == "preorder"@ {
        Ok(Availability::Preorder)
    } else if kind == "in_stock"@ {
        Ok(Availability::InStock)
    } else if kind == "build"@ {
        let hours = match value {
            Some(stored) => stored,
            None => DEFAULT_BUILD_HOURS,
        };
        if 0 <= hours <= u16::MAX {
            Ok(Availability::Build { hours: hours as u16 })
        } else {
            Err(CatalogError::OutOfRange)
        }
    } else {
        Err(CatalogError::UnknownAvailability)
    }
}

/// The provenance that a stored word and number stand for. New equipment
/// has no hours of use, whatever the row holds.
pub open spec fn provenance_of(kind: Seq<char>, usage_hours: i32) -> Result<
    Provenance,
    CatalogError,
> {
    if kind == "new"@ {
        Ok(Provenance::New)
    } else if kind == "used"@ {
        match natural_32(usage_hours) {
            Ok(hours) => Ok(Provenance::Used { hours }),
            Err(error) => Err(error),
        }
    } else {
        Err(CatalogError::UnknownProvenance)
    }
}

/// The provenance option that a stored one stands for. Its price is the
/// stored price, and the price of new equipment where none is stored.
pub open spec fn option_of(record: records::PackageProvenance, setup_price: i32) -> Result<
    ProvenanceOption,
    CatalogError,
> {
    let price = match record.calculated_price_usdc {
        Some(stored) => stored,
        None => setup_price,
    };
    match provenance_of(record.provenance_type@, record.usage_hours) {
        Err(error) => Err(error),
        Ok(provenance_type) => match natural_32(record.quantity_available) {
            Err(error) => Err(error),
            Ok(quantity_available) => match natural_32(price) {
                Err(error) => Err(error),
                Ok(calculated_price) => match share_of(record.discount_percentage) {
                    Err(error) => Err(error),
                    Ok(discount_percentage) => Ok(
                        ProvenanceOption {
                            provenance_type,
                            quantity_available,
                            calculated_price,
                            discount_percentage,
                        },
                    ),
                },
            },
        },
    }
}

/// The provenance options of one package among stored ones, in the order of
/// the rows: the rows of other packages are passed over, and the first row
/// of this package that cannot be read decides the error.
pub open spec fn options_of(
    records: Seq<records::PackageProvenance>,
    package_id: u128,
    setup_price: i32,
) -> Result<Seq<ProvenanceOption>, CatalogError>
    decreases records.len(),
{
    if records.len() == 0 {
        Ok(Seq::empty())
    } else {
        match options_of(records.drop_last(), package_id, setup_price) {
            Err(error) => Err(error),
            Ok(before) => if records.last().package_id != package_id {
                Ok(before)
            } else {
                match option_of(records.last(), setup_price) {
                    Err(error) => Err(error),
                    Ok(option) => Ok(before.push(option)),
                }
            },
        }
    }
}

/// The picture that a stored picture stands for.
pub open spec fn image_of(record: records::PackageImage) -> PackageImage {
    PackageImage {
        filename: record.filename,
        title: record.title,
        description: record.description,
    }
}

/// The plan of a stored order.
pub open spec fn plan_of(order: records::ServerOrder) -> Result<Plan, CatalogError> {
    match gpu_class_named(order.plan_gpu@) {
        None => Err(CatalogError::UnknownGpuClass),
        Some(gpu) => match natural_16(order.plan_cpu_cores) {
            Err(error) => Err(error),
            Ok(cpu_cores) => match natural_16(order.plan_ram_gb) {
                Err(error) => Err(error),
                Ok(ram_gb) => match natural_32(order.plan_storage_gb) {
                    Err(error) => Err(error),
                    Ok(storage_gb) => Ok(Plan { cpu_cores, ram_gb, storage_gb, gpu }),
                },
            },
        },
    }
}

/// Reads a stored count or price.
pub fn read_natural_32(value: i32) -> (read: Result<u32, CatalogError>)
    ensures
        read == natural_32(value),
{
    if value >= 0 {
        Ok(value as u32)
    } else {
        Err(CatalogError::OutOfRange)
    }
}

/// Reads a stored count.
pub fn read_natural_16(value: i16) -> (read: Result<u16, CatalogError>)
    ensures
        read == natural_16(value),
{
    if value >= 0 {
        Ok(value as u16)
    } else {
        Err(CatalogError::OutOfRange)
    }
}

/// Reads a stored share.
pub fn read_share(stored: Option<i64>) -> (read: Result<Option<Percentage>, CatalogError>)
    ensures
        read == share_of(stored),
{
    match stored {
        None => Ok(None),
        Some(hundredths) => {
            if 0 <= hundredths && hundredths <= FULL_SHARE as i64 {
                Ok(Some(Percentage { hundredths: hundredths as u32 }))
            } else {
                Err(CatalogError::OutOfRange)
            }
        },
    }
}

/// Reads a stored depreciation rule.
pub fn read_rule(record: &records::DepreciationRule) -> (read: Result<
    DepreciationRule,
    CatalogError,
>)
    ensures
        read == rule_of(*record),
        read matches Ok(rule) ==> rule.is_valid(),
{
    let curve = match DepreciationCurve::named(record.depreciation_curve.as_str()) {
        Some(named) => named,
        None => {
            return Err(CatalogError::UnknownCurve);
        },
    };
    if record.final_depreciated_percentage < 0 || record.final_depreciated_percentage
        > FULL_SHARE as i64 || record.full_depreciation_hours <= 0 {
        return Err(CatalogError::InvalidRule);
    }
    let rule = DepreciationRule {
        package_id: record.package_id,
        final_depreciated_percentage: Percentage {
            hundredths: record.final_depreciated_percentage as u32,
        },
        full_depreciation_hours: record.full_depreciation_hours as u32,
        depreciation_curve: curve,
    };
    match rule.validate() {
        Ok(()) => Ok(rule),
        Err(_) => Err(CatalogError::InvalidRule),
    }
}

/// Reads the stored depreciation rule of a package that may have none.
pub fn read_optional_rule(record: Option<&records::DepreciationRule>) -> (read: Result<
    Option<DepreciationRule>,
    CatalogError,
>)
    ensures
        read == optional_rule_of(
            match record {
                Some(stored) => Some(*stored),
                None => None,
            },
        ),
{
    match record {
        None => Ok(None),
        Some(stored) => match read_rule(stored) {
            Ok(rule) => Ok(Some(rule)),
            Err(error) => Err(error),
        },
    }
}

/// Reads a stored availability.
pub fn read_availability(kind: &str, value: Option<i32>) -> (read: Result<
    Availability,
    CatalogError,
>)
    ensures
        read == availability_of(kind@, value),
{
    if same_text(kind, "preorder") {
        Ok(Availability::Preorder)
    } else if same_text(kind, "in_stock") {
        Ok(Availability::InStock)
    } else if same_text(kind, "build") {
        let hours: i32 = match value {
            Some(stored) => stored,
            None => DEFAULT_BUILD_HOURS,
        };
        if 0 <= hours && hours <= u16::MAX as i32 {
            Ok(Availability::Build { hours: hours as u16 })
        } else {
            Err(CatalogError::OutOfRange)
        }
    } else {
        Err(CatalogError::UnknownAvailability)
    }
}

/// Reads a stored provenance.
pub fn read_provenance(kind: &str, usage_hours: i32) -> (read: Result<Provenance, CatalogError>)
    ensures
        read == provenance_of(kind@, usage_hours),
{
    if same_text(kind, "new") {
        Ok(Provenance::New)
    } else if same_text(kind, "used") {
        match read_natural_32(usage_hours) {
            Ok(hours) => Ok(Provenance::Used { hours }),
            Err(error) => Err(error),
        }
    } else {
        Err(CatalogError::UnknownProvenance)
    }
}

/// Reads a stored provenance option of a package whose new equipment costs
/// `setup_price`.
pub fn read_option(record: &records::PackageProvenance, setup_price: i32) -> (read: Result<
    ProvenanceOption,
    CatalogError,
>)
    ensures
        read == option_of(*record, setup_price),
{
    let price: i32 = match record.calculated_price_usdc {
        Some(stored) => stored,
        None => setup_price,
    };
    let provenance_type = match read_provenance(
        record.provenance_type.as_str(),
        record.usage_hours,
    ) {
        Ok(read) => read,
        Err(error) => {
            return Err(error);
        },
    };
    let quantity_available = match read_natural_32(record.quantity_available) {
        Ok(read) => read,
        Err(error) => {
            return Err(error);
        },
    };
    let calculated_price = match read_natural_32(price) {
        Ok(read) => read,
        Err(error) => {
            return Err(error);
        },
    };
    let discount_percentage = match read_share(record.discount_percentage) {
        Ok(read) => read,
        Err(error) => {
            return Err(error);
        },
    };
    Ok(ProvenanceOption { provenance_type, quantity_available, calculated_price, discount_percentage })
}

/// Reads the provenance options of the package `package_id` from stored
/// ones, which may belong to several packages.
pub fn read_options(
    records: &Vec<records::PackageProvenance>,
    package_id: u128,
    setup_price: i32,
) -> (read: Result<Vec<ProvenanceOption>, CatalogError>)
    ensures
        match read {
            Ok(options) => options_of(records@, package_id, setup_price) == Ok::<
                Seq<ProvenanceOption>,
                CatalogError,
            >(options@),
            Err(error) => options_of(records@, package_id, setup_price) == Err::<
                Seq<ProvenanceOption>,
                CatalogError,
            >(error),
        },
{
    let mut options: Vec<ProvenanceOption> = Vec::new();
    let mut seen: usize = 0;
    while seen < records.len()
        invariant
            seen <= records@.len(),
            options_of(records@.take(seen as int), package_id, setup_price) == Ok::<
                Seq<ProvenanceOption>,
                CatalogError,
            >(options@),
        decreases records@.len() - seen,
    {
        proof {
            let next = records@.take(seen + 1);
            assert(next.drop_last() == records@.take(seen as int));
            assert(next.last() == records@[seen as int]);
        }
        if records[seen].package_id == package_id {
            match read_option(&records[seen], setup_price) {
                Ok(option) => {
                    options.push(option);
                },
                Err(error) => {
                    proof {
                        lemma_options_error_stays(records@, seen + 1, package_id, setup_price);
                    }
                    return Err(error);
                },
            }
        }
        seen = seen + 1;
    }
    assert(records@.take(seen as int) == records@);
    Ok(options)
}

/// An error among the first rows is the error of all the rows.
proof fn lemma_options_error_stays(
    records: Seq<records::PackageProvenance>,
    read: int,
    package_id: u128,
    setup_price: i32,
)
    requires
        0 <= read <= records.len(),
        options_of(records.take(read), package_id, setup_price) is Err,
    ensures
        options_of(records, package_id, setup_price) == options_of(
            records.take(read),
            package_id,
            setup_price,
        ),
    decreases records.len() - read,
{
    if read < records.len() {
        let next = records.take(read + 1);
        assert(next.drop_last() == records.take(read));
        lemma_options_error_stays(records, read + 1, package_id, setup_price);
    } else {
        assert(records.take(read) == records);
    }
}

/// Reads the stored pictures of a package.
pub fn read_images(records: &Vec<records::PackageImage>) -> (images: Vec<PackageImage>)
    ensures
        images@.len() == records@.len(),
        forall|i: int| 0 <= i < records@.len() ==> #[trigger] images@[i] == image_of(records@[i]),
{
    let mut images: Vec<PackageImage> = Vec::new();
    let mut seen: usize = 0;
    while seen < records.len()
        invariant
            seen <= records@.len(),
            images@.len() == seen,
            forall|i: int| 0 <= i < seen ==> #[trigger] images@[i] == image_of(records@[i]),
        decreases records@.len() - seen,
    {
        let record = &records[seen];
        images.push(
            PackageImage {
                filename: record.filename.clone(),
                title: record.title.clone(),
                description: record.description.clone(),
            },
        );
        seen = seen + 1;
    }
    images
}

/// Whether `package` is what the stored rows stand for: the package of
/// `record` with its rule, its pictures, those of the stored provenance
/// options that are its own, and the price range over them.
pub open spec fn is_package_of(
    package: Package,
    record: records::Package,
    rule: Option<records::DepreciationRule>,
    provenances: Seq<records::PackageProvenance>,
    images: Seq<records::PackageImage>,
) -> bool {
    &&& package.id == record.id
    &&& package.name == record.name
    &&& match record.sku {
        Some(sku) => package.sku == sku,
        None => package.sku@ == Seq::<char>::empty(),
    }
    &&& package.description == record.description
    &&& package.hardware_description == record.hardware_description
    &&& natural_16(record.cpu_cores) == Ok::<u16, CatalogError>(package.cpu_cores)
    &&& natural_16(record.ram_gb) == Ok::<u16, CatalogError>(package.ram_gb)
    &&& natural_32(record.storage_gb) == Ok::<u32, CatalogError>(package.storage_gb)
    &&& gpu_class_named(record.gpu_class@) == Some(package.gpu_class)
    &&& natural_16(record.gpu_count) == Ok::<u16, CatalogError>(package.gpu_count)
    &&& natural_16(record.vram_gb) == Ok::<u16, CatalogError>(package.vram_gb)
    &&& natural_32(record.setup_price_usdc) == Ok::<u32, CatalogError>(package.setup_price_usdc)
    &&& natural_32(record.monthly_price_usdc) == Ok::<u32, CatalogError>(
        package.monthly_price_usdc,
    )
    &&& optional_rule_of(rule) == Ok::<Option<DepreciationRule>, CatalogError>(
        package.depreciation_rule,
    )
    &&& package.images@.len() == images.len()
    &&& forall|i: int| 0 <= i < images.len() ==> #[trigger] package.images@[i] == image_of(images[i])
    &&& availability_of(record.availability_type@, record.availability_value) == Ok::<
        Availability,
        CatalogError,
    >(package.availability)
    &&& options_of(provenances, record.id, record.setup_price_usdc) == Ok::<
        Seq<ProvenanceOption>,
        CatalogError,
    >(package.provenances@)
    &&& package.min_price_usdc matches Some(lowest) && package.max_price_usdc matches Some(highest)
        && crate::catalog::is_price_range(
        (lowest as int, highest as int),
        package.provenances@,
        package.setup_price_usdc as int,
    )
}

/// The first thing that keeps the stored rows from being read as a package,
/// if anything does: the accelerator, then the counts and prices in the
/// order of the fields, then the rule, the availability and the provenance
/// options.
pub open spec fn assembly_failure(
    record: records::Package,
    rule: Option<records::DepreciationRule>,
    provenances: Seq<records::PackageProvenance>,
) -> Option<CatalogError> {
    if gpu_class_named(record.gpu_class@) is None {
        Some(CatalogError::UnknownGpuClass)
    } else if record.cpu_cores < 0 || record.ram_gb < 0 || record.storage_gb < 0
        || record.gpu_count < 0 || record.vram_gb < 0 || record.setup_price_usdc < 0
        || record.monthly_price_usdc < 0 {
        Some(CatalogError::OutOfRange)
    } else {
        match optional_rule_of(rule) {
            Err(error) => Some(error),
            Ok(_) => match availability_of(record.availability_type@, record.availability_value) {
                Err(error) => Some(error),
                Ok(_) => match options_of(provenances, record.id, record.setup_price_usdc) {
                    Err(error) => Some(error),
                    Ok(_) => None,
                },
            },
        }
    }
}

/// Makes the package that the stored rows stand for, with its price range
/// set, or names the first thing that keeps them from being read.
pub fn assemble_package(
    record: &records::Package,
    rule: Option<&records::DepreciationRule>,
    provenances: &Vec<records::PackageProvenance>,
    images: &Vec<records::PackageImage>,
) -> (made: Result<Package, CatalogError>)
    ensures
        match made {
            Ok(package) => {
                &&& assembly_failure(
                    *record,
                    match rule {
                        Some(stored) => Some(*stored),
                        None => None,
                    },
                    provenances@,
                ) is None
                &&& is_package_of(
                    package,
                    *record,
                    match rule {
                        Some(stored) => Some(*stored),
                        None => None,
                    },
                    provenances@,
                    images@,
                )
            },
            Err(error) => assembly_failure(
                *record,
                match rule {
                    Some(stored) => Some(*stored),
                    None => None,
                },
                provenances@,
            ) == Some(error),
        },
{
    let gpu_class = match record.gpu_class_enum() {
        Ok(read) => read,
        Err(error) => {
            return Err(error);
        },
    };
    if record.cpu_cores < 0 || record.ram_gb < 0 || record.storage_gb < 0 || record.gpu_count < 0
        || record.vram_gb < 0 || record.setup_price_usdc < 0 || record.monthly_price_usdc < 0 {
        return Err(CatalogError::OutOfRange);
    }
    let depreciation_rule = match read_optional_rule(rule) {
        Ok(read) => read,
        Err(error) => {
            return Err(error);
        },
    };
    let availability = match read_availability(
        record.availability_type.as_str(),
        record.availability_value,
    ) {
        Ok(read) => read,
        Err(error) => {
            return Err(error);
        },
    };
    let options = match read_options(provenances, record.id, record.setup_price_usdc) {
        Ok(read) => read,
        Err(error) => {
            return Err(error);
        },
    };
    let sku = match &record.sku {
        Some(stored) => stored.clone(),
        None => String::new(),
    };
    let mut package = Package {
        id: record.id,
        name: record.name.clone(),
        sku,
        description: record.description.clone(),
        hardware_description: record.hardware_description.clone(),
        cpu_cores: record.cpu_cores as u16,
        ram_gb: record.ram_gb as u16,
        storage_gb: record.storage_gb as u32,
        gpu_class,
        gpu_count: record.gpu_count as u16,
        vram_gb: record.vram_gb as u16,
        setup_price_usdc: record.setup_price_usdc as u32,
        monthly_price_usdc: record.monthly_price_usdc as u32,
        depreciation_rule,
        images: read_images(images),
        availability,
        provenances: options,
        min_price_usdc: None,
        max_price_usdc: None,
    };
    package.calculate_price_range();
    Ok(package)
}

/// What the store needs to keep an order.
#[derive(Clone, Debug)]
pub struct OrderParameters {
    pub cpu_cores: i16,
    pub ram_gb: i16,
    pub storage_gb: i32,
    pub gpu: String,
    pub pq_enabled: bool,
    pub notes: Option<String>,
}

/// Whether `parameters` hold what `request` asks for.
pub open spec fn is_parameters_of(parameters: OrderParameters, request: CreateOrderRequest) -> bool {
    &&& parameters.cpu_cores == request.plan.cpu_cores
    &&& parameters.ram_gb == request.plan.ram_gb
    &&& parameters.storage_gb == request.plan.storage_gb
    &&& parameters.gpu@ == gpu_class_word(request.plan.gpu)
    &&& parameters.pq_enabled == request.pq_enabled
    &&& parameters.notes == request.notes
}

/// Whether the store's fields can hold the plan.
pub open spec fn plan_fits(plan: Plan) -> bool {
    &&& plan.cpu_cores <= i16::MAX
    &&& plan.ram_gb <= i16::MAX
    &&& plan.storage_gb <= i32::MAX
}

/// What the store is given to keep the order that `request` asks for; a
/// plan that the store's fields cannot hold is refused.
pub fn order_parameters(request: &CreateOrderRequest) -> (made: Result<
    OrderParameters,
    CatalogError,
>)
    ensures
        match made {
            Ok(parameters) => plan_fits(request.plan) && is_parameters_of(parameters, *request),
            Err(error) => !plan_fits(request.plan) && error == CatalogError::OutOfRange,
        },
{
    if request.plan.cpu_cores > i16::MAX as u16 || request.plan.ram_gb > i16::MAX as u16
        || request.plan.storage_gb > i32::MAX as u32 {
        return Err(CatalogError::OutOfRange);
    }
    let notes = match &request.notes {
        Some(text) => Some(text.clone()),
        None => None,
    };
    Ok(
        OrderParameters {
            cpu_cores: request.plan.cpu_cores as i16,
            ram_gb: request.plan.ram_gb as i16,
            storage_gb: request.plan.storage_gb as i32,
            gpu: request.plan.gpu.word().to_owned(),
            pq_enabled: request.pq_enabled,
            notes,
        },
    )
}

/// What the customer is told of the order that was kept.
pub fn order_response(order: &records::ServerOrder) -> (response: CreateOrderResponse)
    ensures
        response.order_id == order.id,
        response.status == order.status,
{
    CreateOrderResponse { order_id: order.id, status: order.status.clone() }
}

/// The summary of a stored order.
pub fn order_summary(order: &records::ServerOrder) -> (made: Result<OrderSummary, CatalogError>)
    ensures
        match made {
            Ok(summary) => {
                &&& plan_of(*order) == Ok::<Plan, CatalogError>(summary.plan)
                &&& summary.id == order.id
                &&& summary.status == order.status
            },
            Err(error) => plan_of(*order) == Err::<Plan, CatalogError>(error),
        },
{
    let gpu = match GpuClass::named(order.plan_gpu.as_str()) {
        Some(named) => named,
        None => {
            return Err(CatalogError::UnknownGpuClass);
        },
    };
    let cpu_cores = match read_natural_16(order.plan_cpu_cores) {
        Ok(read) => read,
        Err(error) => {
            return Err(error);
        },
    };
    let ram_gb = match read_natural_16(order.plan_ram_gb) {
        Ok(read) => read,
        Err(error) => {
            return Err(error);
        },
    };
    let storage_gb = match read_natural_32(order.plan_storage_gb) {
        Ok(read) => read,
        Err(error) => {
            return Err(error);
        },
    };
    Ok(
        OrderSummary {
            id: order.id,
            plan: Plan { cpu_cores, ram_gb, storage_gb, gpu },
            status: order.status.clone(),
        },
    )
}

/// Whether `summary` is the summary of the stored `order`.
pub open spec fn is_summary_of(summary: OrderSummary, order: records::ServerOrder) -> bool {
    &&& plan_of(order) == Ok::<Plan, CatalogError>(summary.plan)
    &&& summary.id == order.id
    &&& summary.status == order.status
}

/// The summaries of stored orders, in their order; the first order that
/// cannot be read decides the error.
pub fn order_summaries(orders: &Vec<records::ServerOrder>) -> (made: Result<
    Vec<OrderSummary>,
    CatalogError,
>)
    ensures
        match made {
            Ok(summaries) => {
                &&& summaries@.len() == orders@.len()
                &&& forall|i: int|
                    0 <= i < orders@.len() ==> is_summary_of(#[trigger] summaries@[i], orders@[i])
            },
            Err(error) => exists|first: int|
                {
                    &&& 0 <= first < orders@.len()
                    &&& plan_of(#[trigger] orders@[first]) == Err::<Plan, CatalogError>(error)
                    &&& forall|i: int| 0 <= i < first ==> plan_of(#[trigger] orders@[i]) is Ok
                },
        },
{
    let mut summaries: Vec<OrderSummary> = Vec::new();
    let mut seen: usize = 0;
    while seen < orders.len()
        invariant
            seen <= orders@.len(),
            summaries@.len() == seen,
            forall|i: int| 0 <= i < seen ==> is_summary_of(#[trigger] summaries@[i], orders@[i]),
            forall|i: int| 0 <= i < seen ==> plan_of(#[trigger] orders@[i]) is Ok,
        decreases orders@.len() - seen,
    {
        match order_summary(&orders[seen]) {
            Ok(summary) => {
                summaries.push(summary);
            },
            Err(error) => {
                assert(plan_of(orders@[seen as int]) == Err::<Plan, CatalogError>(error));
                return Err(error);
            },
        }
        seen = seen + 1;
    }
    Ok(summaries)
}

} // verus!
