use real_one::algo::{Algorithm, GostVariant, TigerVariant};

#[test]
fn algorithm_names_in_order() {
    let names: Vec<String> = Algorithm::all().iter().map(|a| a.to_string()).collect();
    assert_eq!(names, vec![
        "MD4", "MD5", "SHA1", "SHA256", "SHA384", "SHA512", "SHA3-224", "SHA3-256", "SHA3-384",
        "SHA3-512", "BLAKE2B", "BLAKE2S", "RIPEMD160", "TIGER192", "WHIRLPOOL", "GOST", "CRC32",
        "ADLER32",
    ]);
    assert!(Algorithm::MD4 < Algorithm::ADLER32);
}

#[test]
fn variant_names() {
    assert_eq!(GostVariant::all(), vec![GostVariant::CryptoPro, GostVariant::Test]);
    assert_eq!(TigerVariant::all(), vec![TigerVariant::Tiger, TigerVariant::Tiger2]);
    assert_eq!(GostVariant::CryptoPro.to_string(), "GOST R 34.11-94 (CryptoPro S-box)");
    assert_eq!(GostVariant::Test.to_string(), "GOST R 34.11-94 (Test S-box)");
    assert_eq!(TigerVariant::Tiger.to_string(), "Tiger (original padding)");
    assert_eq!(TigerVariant::Tiger2.to_string(), "Tiger2 (alternate padding)");
}
