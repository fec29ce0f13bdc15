//! Tests for the asset bundle: insertion, lookup, and overwriting.

use img_assets::RawAssets;

#[test]
fn empty_bundle_has_no_entries() {
    let assets = RawAssets::new();
    assert_eq!(assets.get("anything"), None);
}

#[test]
fn inserted_entry_is_found() {
    let mut assets = RawAssets::new();
    assets.insert("a.png", vec![1, 2, 3]);
    assert_eq!(assets.get("a.png"), Some(&vec![1, 2, 3]));
    assert_eq!(assets.get("b.png"), None);
}

#[test]
fn latest_insertion_wins() {
    let mut assets = RawAssets::new();
    assets.insert("a.png", vec![1]);
    assets.insert("a.png", vec![2, 3]);
    assert_eq!(assets.get("a.png"), Some(&vec![2, 3]));
}

#[test]
fn entries_are_independent() {
    let mut assets = RawAssets::new();
    assets.insert("a.png", vec![1]);
    assets.insert("b.hdr", vec![2]);
    assert_eq!(assets.get("a.png"), Some(&vec![1]));
    assert_eq!(assets.get("b.hdr"), Some(&vec![2]));
}
