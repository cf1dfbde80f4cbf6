use real_one::algo::{Algorithm, GostVariant, TigerVariant};
use real_one::engine::calculate_hash_from_data;

fn digest(data: &[u8], alg: Algorithm) -> String {
    calculate_hash_from_data(data, &alg, GostVariant::CryptoPro, TigerVariant::Tiger)
}

#[test]
fn abc_matches_reference_vectors() {
    let cases: Vec<(Algorithm, &str)> = vec![
        (Algorithm::MD4, "a448017aaf21d8525fc10ae87aa6729d"),
        (Algorithm::MD5, "900150983cd24fb0d6963f7d28e17f72"),
        (Algorithm::SHA1, "a9993e364706816aba3e25717850c26c9cd0d89d"),
        (Algorithm::SHA256, "ba7816bf8f01cfea414140de5dae2223b00361a396177a9cb410ff61f20015ad"),
        (Algorithm::SHA384, "cb00753f45a35e8bb5a03d699ac65007272c32ab0eded1631a8b605a43ff5bed8086072ba1e7cc2358baeca134c825a7"),
        (Algorithm::SHA512, "ddaf35a193617abacc417349ae20413112e6fa4e89a97ea20a9eeee64b55d39a2192992a274fc1a836ba3c23a3feebbd454d4423643ce80e2a9ac94fa54ca49f"),
        (Algorithm::SHA3_224, "e642824c3f8cf24ad09234ee7d3c766fc9a3a5168d0c94ad73b46fdf"),
        (Algorithm::SHA3_256, "3a985da74fe225b2045c172d6bd390bd855f086e3e9d525b46bfe24511431532"),
        (Algorithm::SHA3_384, "ec01498288516fc926459f58e2c6ad8df9b473cb0fc08c2596da7cf0e49be4b298d88cea927ac7f539f1edf228376d25"),
        (Algorithm::SHA3_512, "b751850b1a57168a5693cd924b6b096e08f621827444f70d884f5d0240d2712e10e116e9192af3c91a7ec57647e3934057340b4cf408d5a56592f8274eec53f0"),
        (Algorithm::BLAKE2b, "ba80a53f981c4d0d6a2797b69f12f6e94c212f14685ac4b74b12bb6fdbffa2d17d87c5392aab792dc252d5de4533cc9518d38aa8dbf1925ab92386edd4009923"),
        (Algorithm::BLAKE2s, "508c5e8c327c14e2e1a72ba34eeb452f37458b209ed63a294d999b4c86675982"),
        (Algorithm::RIPEMD160, "8eb208f7e05d987a9b044a8e98c6b087f15a0bfc"),
        (Algorithm::TIGER192, "f258c1e88414ab2a527ab541ffc5b8bf935f7b951c132951"),
        (Algorithm::WHIRLPOOL, "4e2448a4c6f486bb16b6562c73b4020bf3043e3a731bce721ae1b303d97e6d4c7181eebdb6c57e277d0e34957114cbd6c797fc9d95d8b582d225292076d4eef5"),
        (Algorithm::GOST, "b285056dbf18d7392d7677369524dd14747459ed8143997e163b2986f92fd42c"),
        (Algorithm::CRC32, "352441c2"),
        (Algorithm::ADLER32, "024d0127"),
    ];
    assert_eq!(cases.len(), Algorithm::all().len());
    for (alg, expected) in cases {
        assert_eq!(digest(b"abc", alg), expected, "{:?}", alg);
    }
}

#[test]
fn gost_test_sbox_abc() {
    let r = calculate_hash_from_data(b"abc", &Algorithm::GOST, GostVariant::Test, TigerVariant::Tiger);
    assert_eq!(r, "f3134348c44fb1b2a277729e2285ebb5cb5e0f29c975bc753b70497c06a4d51d");
}

#[test]
fn empty_input_digests() {
    let cases: Vec<(Algorithm, &str)> = vec![
        (Algorithm::MD4, "31d6cfe0d16ae931b73c59d7e0c089c0"),
        (Algorithm::MD5, "d41d8cd98f00b204e9800998ecf8427e"),
        (Algorithm::SHA1, "da39a3ee5e6b4b0d3255bfef95601890afd80709"),
        (Algorithm::SHA256, "e3b0c44298fc1c149afbf4c8996fb92427ae41e4649b934ca495991b7852b855"),
        (Algorithm::SHA384, "38b060a751ac96384cd9327eb1b1e36a21fdb71114be07434c0cc7bf63f6e1da274edebfe76f65fbd51ad2f14898b95b"),
        (Algorithm::SHA3_256, "a7ffc6f8bf1ed76651c14756a061d662f580ff4de43b49fa82d80a4b80f8434a"),
        (Algorithm::TIGER192, "24f0130c63ac933216166e76b1bb925ff373de2d49584e7a"),
        (Algorithm::GOST, "981e5f3ca30c841487830f84fb433e13ac1101569b9c13584ac483234cd656c0"),
        (Algorithm::CRC32, "00000000"),
        (Algorithm::ADLER32, "00000001"),
    ];
    for (alg, expected) in cases {
        assert_eq!(digest(b"", alg), expected, "{:?}", alg);
    }
}

#[test]
fn tiger2_empty_input() {
    let r = calculate_hash_from_data(b"", &Algorithm::TIGER192, GostVariant::CryptoPro, TigerVariant::Tiger2);
    assert_eq!(r, "738701f675be4144924b374527c206c2419f91ef3f31a84a");
}

#[test]
fn checksum_exact_values() {
    assert_eq!(digest(b"Wikipedia", Algorithm::ADLER32), "11e60398");
    assert_eq!(digest(b"123456789", Algorithm::CRC32), "cbf43926");
}
