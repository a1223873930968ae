//! Business records and the text that the screens show for them.

use vstd::prelude::*;
use crate::text::{decimal, decimal_string, join, join_strings, one_decimal, one_decimal_string};

verus! {

/// One place shown by the browser.
///
/// Quantities are held as integers: the rating in tenths of a star, the
/// distance in whole meters and the coordinates in millionths of a degree.
#[derive(Debug)]
pub struct Business {
    pub id: String,
    pub name: String,
    pub rating_tenths: u32,
    pub review_count: u32,
    pub price: Option<String>,
    pub categories: Vec<String>,
    pub city: String,
    pub distance_meters: Option<u64>,
    pub lat_e6: i64,
    pub lng_e6: i64,
}

/// What a `Business` holds, as mathematical values.
pub struct BusinessView {
    pub id: Seq<char>,
    pub name: Seq<char>,
    pub rating_tenths: u32,
    pub review_count: u32,
    pub price: Option<Seq<char>>,
    pub categories: Seq<Seq<char>>,
    pub city: Seq<char>,
    pub distance_meters: Option<u64>,
    pub lat_e6: i64,
    pub lng_e6: i64,
}

impl View for Business {
    type V = BusinessView;

    open spec fn view(&self) -> BusinessView {
        BusinessView {
            id: self.id@,
            name: self.name@,
            rating_tenths: self.rating_tenths,
            review_count: self.review_count,
            price: self.price.deep_view(),
            categories: self.categories.deep_view(),
            city: self.city@,
            distance_meters: self.distance_meters,
            lat_e6: self.lat_e6,
            lng_e6: self.lng_e6,
        }
    }
}

impl Clone for Business {
    fn clone(&self) -> (r: Self)
        ensures
            r@ == self@,
    {
        let price = match &self.price {
            Some(p) => Some(p.clone()),
            None => None,
        };
        let categories = self.categories.clone();
        assert(categories.deep_view() =~= self.categories.deep_view());
        Business {
            id: self.id.clone(),
            name: self.name.clone(),
            rating_tenths: self.rating_tenths,
            review_count: self.review_count,
            price,
            categories,
            city: self.city.clone(),
            distance_meters: self.distance_meters,
            lat_e6: self.lat_e6,
            lng_e6: self.lng_e6,
        }
    }
}

/// The separator between the parts of a summary line.
pub open spec fn dot_sep() -> Seq<char> {
    " \u{b7} "@
}

/// A distance in meters, in tenths of a mile (1609.34 m), to the nearest tenth.
///
/// No distance lies exactly halfway between two tenths, so no tie arises.
pub open spec fn miles_tenths(meters: nat) -> nat {
    (meters * 1000 + 80_467) / 160_934
}

/// A distance in meters written in miles with one decimal place, as in `0.5 mi`.
pub open spec fn miles_text(meters: nat) -> Seq<char> {
    one_decimal(miles_tenths(meters)) + " mi"@
}

/// The parts of the price-and-categories line: the price, the categories
/// joined by commas, and the distance, each where present.
pub open spec fn price_and_categories_parts(b: BusinessView) -> Seq<Seq<char>> {
    let price: Seq<Seq<char>> = match b.price {
        Some(p) => seq![p],
        None => Seq::empty(),
    };
    let cats: Seq<Seq<char>> = if b.categories.len() > 0 {
        seq![join(b.categories, ", "@)]
    } else {
        Seq::empty()
    };
    let dist: Seq<Seq<char>> = match b.distance_meters {
        Some(m) => seq![miles_text(m as nat)],
        None => Seq::empty(),
    };
    price + cats + dist
}

pub open spec fn price_and_categories_text(b: BusinessView) -> Seq<char> {
    join(price_and_categories_parts(b), dot_sep())
}

pub open spec fn distance_text_of(b: BusinessView) -> Seq<char> {
    match b.distance_meters {
        Some(m) => b.city + dot_sep() + miles_text(m as nat),
        None => b.city,
    }
}

pub open spec fn meta_line_of(b: BusinessView) -> Seq<char> {
    match b.price {
        Some(p) => join(seq![b.city, p], dot_sep()),
        None => join(seq![b.city], dot_sep()),
    }
}

/// The review count in parentheses, as in `(4521 reviews)`.
pub open spec fn reviews_text_of(count: nat) -> Seq<char> {
    "("@ + decimal(count) + " reviews)"@
}

/// Writes a distance in meters in miles, as in `0.5 mi`.
fn miles_string(meters: u64) -> (r: String)
    ensures
        r@ == miles_text(meters as nat),
{
    let tenths: u128 = (meters as u128 * 1000 + 80_467) / 160_934;
    let number = one_decimal_string(tenths);
    number.concat(" mi")
}

impl Business {
    /// The price, the categories and the distance, where present, joined by ` · `.
    pub fn price_and_categories(&self) -> (r: String)
        ensures
            r@ == price_and_categories_text(self@),
    {
        let mut parts: Vec<String> = Vec::new();
        if let Some(price) = &self.price {
            parts.push(price.clone());
        }
        if self.categories.len() > 0 {
            parts.push(join_strings(&self.categories, ", "));
        }
        if let Some(meters) = self.distance_meters {
            parts.push(miles_string(meters));
        }
        assert(parts.deep_view() =~= price_and_categories_parts(self@));
        join_strings(&parts, " \u{b7} ")
    }

    /// The city, followed by the distance in miles where it is known.
    pub fn distance_text(&self) -> (r: String)
        ensures
            r@ == distance_text_of(self@),
    {
        match self.distance_meters {
            Some(meters) => {
                let miles = miles_string(meters);
                let head = self.city.clone().concat(" \u{b7} ");
                head.concat(miles.as_str())
            },
            None => self.city.clone(),
        }
    }

    /// The city, followed by the price where there is one.
    pub fn meta_line(&self) -> (r: String)
        ensures
            r@ == meta_line_of(self@),
    {
        let mut parts: Vec<String> = Vec::new();
        parts.push(self.city.clone());
        if let Some(price) = &self.price {
            parts.push(price.clone());
        }
        proof {
            let expected = match self@.price {
                Some(p) => seq![self@.city, p],
                None => seq![self@.city],
            };
            assert(parts.deep_view() =~= expected);
        }
        join_strings(&parts, " \u{b7} ")
    }

    /// The rating with one decimal place, as in `4.5`.
    pub fn rating_text(&self) -> (r: String)
        ensures
            r@ == one_decimal(self.rating_tenths as nat),
    {
        one_decimal_string(self.rating_tenths as u128)
    }

    /// The number of reviews in parentheses, as in `(4521 reviews)`.
    pub fn reviews_text(&self) -> (r: String)
        ensures
            r@ == reviews_text_of(self.review_count as nat),
    {
        let count = decimal_string(self.review_count as u128);
        let open = String::from_str("(");
        open.concat(count.as_str()).concat(" reviews)")
    }

    /// The distance in miles as a card shows it, `0.0 mi` where it is unknown.
    pub fn card_distance_text(&self) -> (r: String)
        ensures
            r@ == miles_text(
                match self.distance_meters {
                    Some(m) => m as nat,
                    None => 0,
                },
            ),
    {
        match self.distance_meters {
            Some(meters) => miles_string(meters),
            None => miles_string(0),
        }
    }
}

/// A listing in San Francisco with a price and a known distance.
pub open spec fn sf_listing(
    id: Seq<char>,
    name: Seq<char>,
    rating_tenths: u32,
    review_count: u32,
    price: Seq<char>,
    categories: Seq<Seq<char>>,
    distance_meters: u64,
    lat_e6: int,
    lng_e6: int,
) -> BusinessView {
    BusinessView {
        id,
        name,
        rating_tenths,
        review_count,
        price: Some(price),
        categories,
        city: "San Francisco"@,
        distance_meters: Some(distance_meters),
        lat_e6: lat_e6 as i64,
        lng_e6: lng_e6 as i64,
    }
}

/// The fixed list of businesses that the browser shows.
pub open spec fn mock_business_views() -> Seq<BusinessView> {
    seq![
        sf_listing("1"@, "Flour + Water"@, 45, 4521, "$$$"@, seq!["Italian"@, "Pizza"@], 850, 37_759_900, -122_414_800),
        sf_listing("2"@, "Tartine Bakery"@, 40, 8234, "$$"@, seq!["Bakeries"@, "Cafes"@], 1200, 37_761_400, -122_424_100),
        sf_listing("3"@, "Burma Superstar"@, 40, 6712, "$$"@, seq!["Burmese"@], 3400, 37_782_900, -122_458_900),
        sf_listing("4"@, "Zuni Cafe"@, 40, 3891, "$$$"@, seq!["American"@], 2100, 37_775_500, -122_421_400),
        sf_listing("5"@, "La Taqueria"@, 40, 5423, "$"@, seq!["Mexican"@, "Tacos"@], 1800, 37_750_900, -122_418_000),
    ]
}

/// The ids of the fixed list, in order.
pub open spec fn mock_ids() -> Seq<Seq<char>> {
    mock_business_views().map_values(|b: BusinessView| b.id)
}

fn sf_business(
    id: &str,
    name: &str,
    rating_tenths: u32,
    review_count: u32,
    price: &str,
    categories: Vec<String>,
    distance_meters: u64,
    lat_e6: i64,
    lng_e6: i64,
) -> (r: Business)
    ensures
        r@ == sf_listing(
            id@,
            name@,
            rating_tenths,
            review_count,
            price@,
            categories.deep_view(),
            distance_meters,
            lat_e6 as int,
            lng_e6 as int,
        ),
{
    Business {
        id: String::from_str(id),
        name: String::from_str(name),
        rating_tenths,
        review_count,
        price: Some(String::from_str(price)),
        categories,
        city: String::from_str("San Francisco"),
        distance_meters: Some(distance_meters),
        lat_e6,
        lng_e6,
    }
}

fn strings2(a: &str, b: &str) -> (r: Vec<String>)
    ensures
        r.deep_view() == seq![a@, b@],
{
    let r = vec![String::from_str(a), String::from_str(b)];
    assert(r.deep_view() =~= seq![a@, b@]);
    r
}

fn strings1(a: &str) -> (r: Vec<String>)
    ensures
        r.deep_view() == seq![a@],
{
    let r = vec![String::from_str(a)];
    assert(r.deep_view() =~= seq![a@]);
    r
}

/// The businesses of the fixed list have distinct ids.
pub proof fn lemma_mock_ids_distinct()
    ensures
        forall|i: int, j: int|
            0 <= i < j < mock_business_views().len() ==> mock_business_views()[i].id
                != mock_business_views()[j].id,
{
    reveal_strlit("1");
    reveal_strlit("2");
    reveal_strlit("3");
    reveal_strlit("4");
    reveal_strlit("5");
    let m = mock_business_views();
    assert(m[0].id[0] == '1');
    assert(m[1].id[0] == '2');
    assert(m[2].id[0] == '3');
    assert(m[3].id[0] == '4');
    assert(m[4].id[0] == '5');
}

/// The fixed list of businesses that the browser shows.
pub fn mock_businesses() -> (r: Vec<Business>)
    ensures
        r@.map_values(|b: Business| b@) == mock_business_views(),
{
    let r = vec![
        sf_business("1", "Flour + Water", 45, 4521, "$$$", strings2("Italian", "Pizza"), 850, 37_759_900, -122_414_800),
        sf_business("2", "Tartine Bakery", 40, 8234, "$$", strings2("Bakeries", "Cafes"), 1200, 37_761_400, -122_424_100),
        sf_business("3", "Burma Superstar", 40, 6712, "$$", strings1("Burmese"), 3400, 37_782_900, -122_458_900),
        sf_business("4", "Zuni Cafe", 40, 3891, "$$$", strings1("American"), 2100, 37_775_500, -122_421_400),
        sf_business("5", "La Taqueria", 40, 5423, "$", strings2("Mexican", "Tacos"), 1800, 37_750_900, -122_418_000),
    ];
    assert(r@.map_values(|b: Business| b@) =~= mock_business_views());
    r
}

} // verus!
