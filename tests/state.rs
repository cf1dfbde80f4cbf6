use real_one::algo::{Algorithm, GostVariant, TigerVariant};
use real_one::format::HashFormat;
use real_one::state::{toggle_algorithm, HashResults, Preferences};

#[test]
fn preference_defaults() {
    let p = Preferences::defaults();
    assert_eq!(p.selected_algorithms, vec![Algorithm::MD5, Algorithm::SHA256, Algorithm::SHA512]);
    assert_eq!(p.hash_format, HashFormat::HexLower);
    let q = Preferences::from_saved(vec![Algorithm::GOST], None, Some(GostVariant::Test), None);
    assert_eq!(q.selected_algorithms, vec![Algorithm::GOST]);
    assert_eq!(q.hash_format, HashFormat::HexLower);
    assert_eq!(q.gost_variant, GostVariant::Test);
    assert_eq!(q.tiger_variant, TigerVariant::Tiger);
}

#[test]
fn toggling_algorithms() {
    let mut s = vec![Algorithm::MD5];
    toggle_algorithm(&mut s, Algorithm::SHA1, true);
    toggle_algorithm(&mut s, Algorithm::SHA1, true);
    assert_eq!(s, vec![Algorithm::MD5, Algorithm::SHA1]);
    toggle_algorithm(&mut s, Algorithm::MD5, false);
    assert_eq!(s, vec![Algorithm::SHA1]);
}

#[test]
fn results_store_and_reformat() {
    let mut r = HashResults::new();
    r.store_computed(vec![
        (Algorithm::CRC32, "deadbeef".to_string()),
        (Algorithm::MD5, "Error: denied".to_string()),
    ], HashFormat::HexUpper);
    assert_eq!(r.get(Algorithm::CRC32).map(|s| s.as_str()), Some("DEADBEEF"));
    assert_eq!(r.get(Algorithm::MD5).map(|s| s.as_str()), Some("Error: denied"));
    r.reformat(HashFormat::Base64);
    assert_eq!(r.get(Algorithm::CRC32).map(|s| s.as_str()), Some("3q2+7w=="));
    assert_eq!(r.get(Algorithm::MD5).map(|s| s.as_str()), Some("Error: denied"));
    r.reformat(HashFormat::HexLower);
    assert_eq!(r.get(Algorithm::CRC32).map(|s| s.as_str()), Some("deadbeef"));
    r.insert(Algorithm::GOST, "00".to_string());
    r.remove(Algorithm::GOST);
    assert!(r.get(Algorithm::GOST).is_none());
    assert!(r.get(Algorithm::SHA1).is_none());
}

#[test]
fn variant_change_drops_stale_result() {
    let mut prefs = Preferences::defaults();
    let mut r = HashResults::new();
    r.insert(Algorithm::GOST, "aa".to_string());
    r.insert(Algorithm::TIGER192, "bb".to_string());
    r.insert(Algorithm::MD5, "cc".to_string());
    prefs.set_gost_variant(&mut r, GostVariant::Test);
    assert_eq!(prefs.gost_variant, GostVariant::Test);
    assert!(r.get(Algorithm::GOST).is_none());
    assert_eq!(r.get(Algorithm::TIGER192).map(|s| s.as_str()), Some("bb"));
    prefs.set_tiger_variant(&mut r, TigerVariant::Tiger2);
    assert_eq!(prefs.tiger_variant, TigerVariant::Tiger2);
    assert!(r.get(Algorithm::TIGER192).is_none());
    assert_eq!(r.get(Algorithm::MD5).map(|s| s.as_str()), Some("cc"));
}
