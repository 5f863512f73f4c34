use qapish::catalog::{
    highest_price, lowest_price, price_range, Availability, GpuClass, Package, Provenance,
    ProvenanceOption,
};
use qapish::pricing::{DepreciationCurve, DepreciationRule, Percentage};

fn option(provenance_type: Provenance, calculated_price: u32) -> ProvenanceOption {
    ProvenanceOption {
        provenance_type,
        quantity_available: 1,
        calculated_price,
        discount_percentage: None,
    }
}

fn package(provenances: Vec<ProvenanceOption>) -> Package {
    Package {
        id: 7,
        name: "Forge".to_string(),
        sku: "forge-1".to_string(),
        description: String::new(),
        hardware_description: String::new(),
        cpu_cores: 16,
        ram_gb: 128,
        storage_gb: 2000,
        gpu_class: GpuClass::RTX_5090,
        gpu_count: 1,
        vram_gb: 32,
        setup_price_usdc: 3000,
        monthly_price_usdc: 200,
        depreciation_rule: None,
        images: Vec::new(),
        availability: Availability::InStock,
        provenances,
        min_price_usdc: None,
        max_price_usdc: None,
    }
}

fn three_options() -> Vec<ProvenanceOption> {
    vec![
        option(Provenance::Used { hours: 13140 }, 1875),
        option(Provenance::New, 3000),
        option(Provenance::Used { hours: 8760 }, 2250),
    ]
}

#[test]
fn range_spans_the_option_prices() {
    assert_eq!(price_range(&three_options(), 3000), (1875, 3000));
}

#[test]
fn range_without_options_is_the_fallback() {
    assert_eq!(price_range(&Vec::new(), 3000), (3000, 3000));
}

#[test]
fn range_ignores_the_fallback_where_there_are_options() {
    assert_eq!(price_range(&three_options(), 1), (1875, 3000));
    assert_eq!(price_range(&three_options(), 9000), (1875, 3000));
}

#[test]
fn range_of_one_option_is_its_price_twice() {
    let options = vec![option(Provenance::New, 2400)];
    assert_eq!(price_range(&options, 3000), (2400, 2400));
}

#[test]
fn range_encloses_every_price() {
    let options: Vec<ProvenanceOption> = [5u32, 9, 2, 2, 40, 7, 0, 13]
        .iter()
        .map(|price| option(Provenance::New, *price))
        .collect();
    let (lowest, highest) = price_range(&options, 3000);
    assert_eq!((lowest, highest), (0, 40));
    for option in &options {
        assert!(lowest <= option.calculated_price && option.calculated_price <= highest);
    }
}

#[test]
fn lowest_and_highest_are_found_apart() {
    let options = three_options();
    assert_eq!(lowest_price(&options), 1875);
    assert_eq!(highest_price(&options), 3000);
    let descending = vec![option(Provenance::New, 9), option(Provenance::New, 4)];
    assert_eq!(lowest_price(&descending), 4);
    assert_eq!(highest_price(&descending), 9);
}

#[test]
fn package_range_is_set_from_its_options() {
    let mut package = package(three_options());
    assert_eq!(package.get_min_price(), 3000);
    assert_eq!(package.get_max_price(), 3000);
    package.calculate_price_range();
    assert_eq!(package.min_price_usdc, Some(1875));
    assert_eq!(package.max_price_usdc, Some(3000));
    assert_eq!(package.get_min_price(), 1875);
    assert_eq!(package.get_max_price(), 3000);
    assert_eq!(package.name, "Forge");
    assert_eq!(package.provenances, three_options());
}

#[test]
fn package_range_without_options_is_the_setup_price() {
    let mut package = package(Vec::new());
    package.calculate_price_range();
    assert_eq!(package.min_price_usdc, Some(3000));
    assert_eq!(package.max_price_usdc, Some(3000));
}

#[test]
fn used_options_are_found() {
    assert!(package(three_options()).has_used_options());
    assert!(!package(vec![option(Provenance::New, 3000)]).has_used_options());
    assert!(!package(Vec::new()).has_used_options());
    assert!(package(vec![option(Provenance::New, 1), option(Provenance::Used { hours: 0 }, 1)])
        .has_used_options());
}

#[test]
fn provenance_price_follows_the_rule() {
    let mut package = package(Vec::new());
    assert_eq!(package.provenance_price(Provenance::Used { hours: 13140 }), Some(3000));
    package.depreciation_rule = Some(DepreciationRule {
        package_id: 7,
        final_depreciated_percentage: Percentage { hundredths: 2500 },
        full_depreciation_hours: 26280,
        depreciation_curve: DepreciationCurve::Linear,
    });
    assert_eq!(package.provenance_price(Provenance::New), Some(3000));
    assert_eq!(package.provenance_price(Provenance::Used { hours: 13140 }), Some(1875));
    assert_eq!(package.provenance_price(Provenance::Used { hours: 99999 }), Some(750));
    package.depreciation_rule.as_mut().unwrap().depreciation_curve = DepreciationCurve::Exponential;
    assert_eq!(package.provenance_price(Provenance::Used { hours: 13140 }), None);
    assert_eq!(package.provenance_price(Provenance::Used { hours: 0 }), Some(3000));
}
