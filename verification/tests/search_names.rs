//! Name normalization for the search index.
use poeledger::search::{name_to_id, UniqueListingDocument};

#[test]
fn simple_name() {
    let name1 = "Mageblood";
    assert_eq!(name_to_id(name1), "mageblood");

    let name2 = "Impresence";
    assert_eq!(name_to_id(name2), "impresence");

    let name3 = "The Eternal Struggle";
    assert_eq!(name_to_id(name3), "theeternalstruggle");
}

#[test]
fn names_with_quotes() {
    let name1 = "Replica Hyrri's Ire";
    assert_eq!(name_to_id(name1), "replicahyrrisire");

    let name2 = "Lioneye's Fall";
    assert_eq!(name_to_id(name2), "lioneyesfall");
}

#[test]
fn complex_names() {
    let name1 = "Caer Blaidd, Wolfpack's Den";
    assert_eq!(name_to_id(name1), "caerblaiddwolfpacksden");
}

#[test]
fn document_carries_name_and_id() {
    let doc = UniqueListingDocument::new("Caer Blaidd, Wolfpack's Den");
    assert_eq!(doc.id, "caerblaiddwolfpacksden");
    assert_eq!(doc.name, "Caer Blaidd, Wolfpack's Den");
}

#[test]
fn padded_name_is_trimmed() {
    assert_eq!(name_to_id("  Mageblood\t"), "mageblood");
}
