use qapish::catalog::{Availability, Provenance, ProvenanceOption};
use qapish::display::{
    navigation, neighbours, payment_policy, position_of, price_label, provenance_summary,
    usage_label, Navigation, PaymentPolicy, PriceLabel, ProvenanceSummary, UsageLabel,
    HOURS_PER_YEAR, PREORDER_DEPOSIT_PERCENT,
};

fn option(provenance_type: Provenance) -> ProvenanceOption {
    ProvenanceOption {
        provenance_type,
        quantity_available: 3,
        calculated_price: 3000,
        discount_percentage: None,
    }
}

fn skus() -> Vec<String> {
    vec!["ember".to_string(), "forge".to_string(), "anvil".to_string(), "forge".to_string()]
}

#[test]
fn price_is_shown_as_a_range_where_its_ends_differ() {
    assert_eq!(price_label(Some(1875), Some(3000), 3000), PriceLabel::Range(1875, 3000));
    assert_eq!(price_label(Some(1875), Some(2250), 3000), PriceLabel::Range(1875, 2250));
}

#[test]
fn price_is_shown_alone_where_there_is_no_range() {
    assert_eq!(price_label(Some(2400), Some(2400), 3000), PriceLabel::Single(3000));
    assert_eq!(price_label(None, Some(3000), 3000), PriceLabel::Single(3000));
    assert_eq!(price_label(Some(1875), None, 3000), PriceLabel::Single(3000));
    assert_eq!(price_label(None, None, 3000), PriceLabel::Single(3000));
}

#[test]
fn preorder_takes_a_deposit() {
    assert_eq!(PREORDER_DEPOSIT_PERCENT, 5);
    assert_eq!(payment_policy(Availability::Preorder), PaymentPolicy::Deposit { percent: 5 });
    assert_eq!(payment_policy(Availability::InStock), PaymentPolicy::Full);
    assert_eq!(payment_policy(Availability::Build { hours: 48 }), PaymentPolicy::Full);
}

#[test]
fn card_sums_up_the_options() {
    assert_eq!(provenance_summary(&Vec::new()), ProvenanceSummary::New);
    assert_eq!(provenance_summary(&vec![option(Provenance::New)]), ProvenanceSummary::New);
    assert_eq!(
        provenance_summary(&vec![option(Provenance::Used { hours: 500 })]),
        ProvenanceSummary::Used { hours: 500 }
    );
    assert_eq!(
        provenance_summary(&vec![option(Provenance::New), option(Provenance::Used { hours: 500 })]),
        ProvenanceSummary::Options(2)
    );
}

#[test]
fn use_is_worded_in_hours_below_a_year() {
    assert_eq!(HOURS_PER_YEAR, 8760);
    assert_eq!(usage_label(Provenance::New), UsageLabel::BrandNew);
    assert_eq!(usage_label(Provenance::Used { hours: 0 }), UsageLabel::Hours(0));
    assert_eq!(usage_label(Provenance::Used { hours: 8759 }), UsageLabel::Hours(8759));
    assert_eq!(usage_label(Provenance::Used { hours: 8760 }), UsageLabel::Years { hours: 8760 });
    assert_eq!(usage_label(Provenance::Used { hours: 13140 }), UsageLabel::Years { hours: 13140 });
}

#[test]
fn neighbours_stand_on_a_ring() {
    assert_eq!(neighbours(0, 3), Navigation { previous: 2, next: 1, position: 1, total: 3 });
    assert_eq!(neighbours(1, 3), Navigation { previous: 0, next: 2, position: 2, total: 3 });
    assert_eq!(neighbours(2, 3), Navigation { previous: 1, next: 0, position: 3, total: 3 });
    assert_eq!(neighbours(0, 1), Navigation { previous: 0, next: 0, position: 1, total: 1 });
}

#[test]
fn neighbours_undo_each_other() {
    for total in 1..6usize {
        for index in 0..total {
            let here = neighbours(index, total);
            assert_eq!(neighbours(here.next, total).previous, index);
            assert_eq!(neighbours(here.previous, total).next, index);
        }
    }
}

#[test]
fn first_place_of_a_sku_is_found() {
    assert_eq!(position_of(&skus(), "ember"), Some(0));
    assert_eq!(position_of(&skus(), "forge"), Some(1));
    assert_eq!(position_of(&skus(), "anvil"), Some(2));
    assert_eq!(position_of(&skus(), "Forge"), None);
    assert_eq!(position_of(&Vec::new(), "forge"), None);
}

#[test]
fn navigation_leads_from_a_known_sku() {
    assert_eq!(
        navigation(&skus(), "ember"),
        Some(Navigation { previous: 3, next: 1, position: 1, total: 4 })
    );
    assert_eq!(
        navigation(&skus(), "forge"),
        Some(Navigation { previous: 0, next: 2, position: 2, total: 4 })
    );
    assert_eq!(navigation(&skus(), "hammer"), None);
    assert_eq!(navigation(&Vec::new(), ""), None);
}
