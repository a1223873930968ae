use yelp_core::business::{mock_businesses, Business};
use yelp_core::text::{decimal_string, join_strings, one_decimal_string};

fn place(price: Option<&str>, categories: &[&str], distance_meters: Option<u64>) -> Business {
    Business {
        id: "9".to_string(),
        name: "Test Place".to_string(),
        rating_tenths: 35,
        review_count: 12,
        price: price.map(|p| p.to_string()),
        categories: categories.iter().map(|c| c.to_string()).collect(),
        city: "Oakland".to_string(),
        distance_meters,
        lat_e6: 37_800_000,
        lng_e6: -122_270_000,
    }
}

#[test]
fn mock_list_has_five_businesses_in_order() {
    let list = mock_businesses();
    let ids: Vec<&str> = list.iter().map(|b| b.id.as_str()).collect();
    assert_eq!(ids, vec!["1", "2", "3", "4", "5"]);
    assert_eq!(list[0].name, "Flour + Water");
    assert_eq!(list[0].rating_tenths, 45);
    assert_eq!(list[0].review_count, 4521);
    assert_eq!(list[0].price.as_deref(), Some("$$$"));
    assert_eq!(list[0].categories, vec!["Italian".to_string(), "Pizza".to_string()]);
    assert_eq!(list[0].distance_meters, Some(850));
    assert_eq!(list[0].lat_e6, 37_759_900);
    assert_eq!(list[0].lng_e6, -122_414_800);
    assert_eq!(list[4].name, "La Taqueria");
    assert_eq!(list[4].price.as_deref(), Some("$"));
    assert_eq!(list[2].categories, vec!["Burmese".to_string()]);
}

#[test]
fn price_and_categories_of_mock_list() {
    let list = mock_businesses();
    let lines: Vec<String> = list.iter().map(|b| b.price_and_categories()).collect();
    assert_eq!(lines[0], "$$$ \u{b7} Italian, Pizza \u{b7} 0.5 mi");
    assert_eq!(lines[1], "$$ \u{b7} Bakeries, Cafes \u{b7} 0.7 mi");
    assert_eq!(lines[2], "$$ \u{b7} Burmese \u{b7} 2.1 mi");
    assert_eq!(lines[3], "$$$ \u{b7} American \u{b7} 1.3 mi");
    assert_eq!(lines[4], "$ \u{b7} Mexican, Tacos \u{b7} 1.1 mi");
}

#[test]
fn price_and_categories_leaves_out_missing_parts() {
    assert_eq!(place(None, &[], None).price_and_categories(), "");
    assert_eq!(place(Some("$$"), &[], None).price_and_categories(), "$$");
    assert_eq!(place(None, &["Thai"], None).price_and_categories(), "Thai");
    assert_eq!(place(None, &[], Some(1609)).price_and_categories(), "1.0 mi");
    assert_eq!(
        place(None, &["Thai", "Noodles", "Soup"], Some(0)).price_and_categories(),
        "Thai, Noodles, Soup \u{b7} 0.0 mi"
    );
}

#[test]
fn distance_text_with_and_without_distance() {
    assert_eq!(mock_businesses()[0].distance_text(), "San Francisco \u{b7} 0.5 mi");
    assert_eq!(place(None, &[], None).distance_text(), "Oakland");
    assert_eq!(place(None, &[], Some(80_467)).distance_text(), "Oakland \u{b7} 50.0 mi");
}

#[test]
fn meta_line_with_and_without_price() {
    assert_eq!(mock_businesses()[1].meta_line(), "San Francisco \u{b7} $$");
    assert_eq!(place(None, &["Thai"], Some(10)).meta_line(), "Oakland");
}

#[test]
fn card_labels() {
    let b = &mock_businesses()[0];
    assert_eq!(b.rating_text(), "4.5");
    assert_eq!(b.reviews_text(), "(4521 reviews)");
    assert_eq!(b.card_distance_text(), "0.5 mi");
    assert_eq!(mock_businesses()[1].rating_text(), "4.0");
    assert_eq!(place(None, &[], None).card_distance_text(), "0.0 mi");
    assert_eq!(place(None, &[], None).reviews_text(), "(12 reviews)");
}

#[test]
fn miles_agree_with_float_division() {
    let samples: Vec<u64> = vec![
        0, 1, 80, 81, 160, 161, 241, 242, 804, 805, 850, 1200, 1609, 1610, 1800, 2100, 3400,
        16_093, 16_094, 80_467, 123_456, 999_999, 4_000_000, 987_654_321,
    ];
    for m in samples {
        let b = place(None, &[], Some(m));
        let expected = format!("{:.1} mi", m as f64 / 1609.34);
        assert_eq!(b.card_distance_text(), expected, "meters {}", m);
    }
    for m in (0u64..20_000).step_by(7) {
        let b = place(None, &[], Some(m));
        assert_eq!(b.card_distance_text(), format!("{:.1} mi", m as f64 / 1609.34));
    }
}

#[test]
fn decimal_and_tenths_formatting() {
    assert_eq!(decimal_string(0), "0");
    assert_eq!(decimal_string(7), "7");
    assert_eq!(decimal_string(4521), "4521");
    assert_eq!(decimal_string(u128::MAX), u128::MAX.to_string());
    assert_eq!(one_decimal_string(0), "0.0");
    assert_eq!(one_decimal_string(45), "4.5");
    assert_eq!(one_decimal_string(500), "50.0");
}

#[test]
fn joining_parts() {
    let parts = vec!["a".to_string(), "bc".to_string(), "".to_string(), "d".to_string()];
    assert_eq!(join_strings(&parts, ", "), "a, bc, , d");
    assert_eq!(join_strings(&Vec::new(), ", "), "");
    assert_eq!(join_strings(&vec!["only".to_string()], "-"), "only");
}

#[test]
fn clone_keeps_every_field() {
    let b = place(Some("$"), &["Thai"], Some(5));
    let c = b.clone();
    assert_eq!(c.id, b.id);
    assert_eq!(c.price, b.price);
    assert_eq!(c.categories, b.categories);
    assert_eq!(c.distance_meters, b.distance_meters);
    assert_eq!(c.lng_e6, b.lng_e6);
}
