//! The price-note extractor on the notes the pipeline sees, in both
//! listing shapes; prices come out as exact fractions.
use poeledger::item::{note_to_complex_price as item_note_price, ListCurrency};
use poeledger::listing::{note_to_complex_price, ListingCurrency};
use poeledger::note::Ratio;

fn as_f64(r: Ratio) -> f64 {
    r.numer as f64 / r.denom as f64
}

#[test]
fn item_simple_chaos_note() {
    let note = "~price 70 chaos";
    let price = item_note_price(note);

    let p = price.expect("should unwrap");
    assert_eq!(70 as f64, as_f64(p.list_price));
    assert_eq!(ListCurrency::Chaos, p.list_currency);
}

#[test]
fn item_simple_exalt_note() {
    let note = "~price 20 exa";
    let price = item_note_price(note);

    let p = price.expect("should unwrap");
    assert_eq!(20 as f64, as_f64(p.list_price));
    assert_eq!(ListCurrency::Exalt, p.list_currency);
}

#[test]
fn item_simple_divine_note() {
    let note = "~b/o 10 divine";
    let price = item_note_price(note);

    let p = price.expect("should unwrap");
    assert_eq!(10 as f64, as_f64(p.list_price));
    assert_eq!(ListCurrency::Divine, p.list_currency);
}

#[test]
fn item_fractional_chaos_note() {
    let note = "~price 100/10 chaos";
    let price = item_note_price(note);

    let p = price.expect("should unwrap");
    assert_eq!(10 as f64, as_f64(p.list_price));
    assert_eq!(ListCurrency::Chaos, p.list_currency);
}

#[test]
fn item_fractional_divine_note() {
    let note = "~price 5/20 divine";
    let price = item_note_price(note);

    let p = price.expect("should unwrap");
    assert_eq!(0.25 as f64, as_f64(p.list_price));
    assert_eq!(ListCurrency::Divine, p.list_currency);
}

#[test]
fn item_float_divine_note() {
    let note = "~price 0.8 divine";
    let price = item_note_price(note);

    let p = price.expect("should unwrap");
    assert_eq!(0.8 as f64, as_f64(p.list_price));
    assert_eq!(ListCurrency::Divine, p.list_currency);
}

#[test]
fn item_unknown_currency_note() {
    let note = "~price 3 alch";
    let price = item_note_price(note);

    let p = price.expect("should unwrap");
    assert_eq!(3 as f64, as_f64(p.list_price));
    assert_eq!(ListCurrency::Unknown, p.list_currency);
}

#[test]
fn item_invalid_note() {
    let note = "random note on item";
    let price = item_note_price(note);

    assert!(price.is_none());
}

#[test]
fn listing_simple_chaos_note() {
    let note = "~price 70 chaos";
    let price = note_to_complex_price(note).expect("should parse");

    let p = price.expect("should unwrap");
    assert_eq!(70 as f64, as_f64(p.listed_price));
    assert_eq!(ListingCurrency::ChaosOrb, p.listed_currency);
}

#[test]
fn listing_simple_exalt_note() {
    let note = "~price 20 exa";
    let price = note_to_complex_price(note).expect("should parse");

    let p = price.expect("should unwrap");
    assert_eq!(20 as f64, as_f64(p.listed_price));
    assert_eq!(ListingCurrency::ExaltedOrb, p.listed_currency);
}

#[test]
fn listing_simple_divine_note() {
    let note = "~b/o 10 divine";
    let price = note_to_complex_price(note).expect("should parse");

    let p = price.expect("should unwrap");
    assert_eq!(10 as f64, as_f64(p.listed_price));
    assert_eq!(ListingCurrency::DivineOrb, p.listed_currency);
}

#[test]
fn listing_fractional_chaos_note() {
    let note = "~price 100/10 chaos";
    let price = note_to_complex_price(note).expect("should parse");

    let p = price.expect("should unwrap");
    assert_eq!(10 as f64, as_f64(p.listed_price));
    assert_eq!(ListingCurrency::ChaosOrb, p.listed_currency);
}

#[test]
fn listing_fractional_divine_note() {
    let note = "~price 5/20 divine";
    let price = note_to_complex_price(note).expect("should parse");

    let p = price.expect("should unwrap");
    assert_eq!(0.25 as f64, as_f64(p.listed_price));
    assert_eq!(ListingCurrency::DivineOrb, p.listed_currency);
}

#[test]
fn listing_float_divine_note() {
    let note = "~price 0.8 divine";
    let price = note_to_complex_price(note).expect("should parse");

    let p = price.expect("should unwrap");
    assert_eq!(0.8 as f64, as_f64(p.listed_price));
    assert_eq!(ListingCurrency::DivineOrb, p.listed_currency);
}

#[test]
fn alch_currency_note() {
    let note = "~price 3 alch";
    let price = note_to_complex_price(note).expect("should parse");

    let p = price.expect("should unwrap");
    assert_eq!(3 as f64, as_f64(p.listed_price));
    assert_eq!(ListingCurrency::AlchemyOrb, p.listed_currency);
}

#[test]
fn mirror_currency_note() {
    let note = "~price 2 mirror";
    let price = note_to_complex_price(note).expect("should parse");

    let p = price.expect("should unwrap");
    assert_eq!(2 as f64, as_f64(p.listed_price));
    assert_eq!(ListingCurrency::MirrorOfKalandra, p.listed_currency);
}

#[test]
fn listing_unknown_currency_note() {
    let note = "~price 10 offer-gift";
    let price = note_to_complex_price(note).expect("should parse");

    let p = price.expect("should unwrap");
    assert_eq!(10 as f64, as_f64(p.listed_price));
    assert_eq!(ListingCurrency::Unknown, p.listed_currency);
}

#[test]
fn listing_invalid_note() {
    let note = "random note on item";
    let price = note_to_complex_price(note).expect("should parse");

    assert!(price.is_none());
}

#[test]
fn rational_zero_denominator_reads_as_zero() {
    let note = "~price 100/0 chaos";
    let price = note_to_complex_price(note).expect("should parse");

    let p = price.expect("should unwrap");
    assert_eq!(0.0 as f64, as_f64(p.listed_price));
    assert_eq!(ListingCurrency::ChaosOrb, p.listed_currency);
}

#[test]
fn matched_note_with_bad_decimal_is_an_error() {
    let note = "~price 1.2.3 chaos";
    let price = note_to_complex_price(note);

    assert!(price.is_err());
}

#[test]
fn normalized_price_is_reserved_zero() {
    let note = "~price 70 chaos";
    let p = note_to_complex_price(note)
        .expect("should parse")
        .expect("should unwrap");

    assert_eq!(0, p.normalized_price.numer);
    assert_eq!(1, p.normalized_price.denom);
}
