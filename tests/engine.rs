use real_one::adapters::{reverse_words8, GostHasher, TigerHasher};
use real_one::algo::{Algorithm, GostVariant, TigerVariant};
use real_one::engine::calculate_hash_from_data;
use real_one::multi::{
    calculate_hashes_from_buffer, collect_completed, error_results, read_error_results,
    requested_algorithms, MultiHasher,
};
use real_one::strategy::{
    chunk_size, select_strategy, single_pass_tries_mapping, use_parallel, Strategy, BUFFER_SIZE,
    LARGE_BUFFER_SIZE, LARGE_FILE_THRESHOLD, MMAP_THRESHOLD,
};

fn sample() -> Vec<u8> {
    (0..10_000u32).map(|i| (i * 31 % 251) as u8).collect()
}

#[test]
fn strategies_agree_on_every_algorithm() {
    let data = sample();
    let algs = Algorithm::all();
    let buffered = calculate_hashes_from_buffer(&data, &algs, GostVariant::Test, TigerVariant::Tiger2);
    let mut engine = MultiHasher::new(&algs, GostVariant::Test, TigerVariant::Tiger2);
    for chunk in data.chunks(777) {
        engine.update(chunk);
    }
    let chunked = engine.finish();
    let per_unit: Vec<Option<(Algorithm, String)>> = algs
        .iter()
        .map(|a| Some((*a, calculate_hash_from_data(&data, a, GostVariant::Test, TigerVariant::Tiger2))))
        .collect();
    let parallel = collect_completed(per_unit);
    assert_eq!(buffered.len(), 18);
    assert_eq!(buffered, chunked);
    assert_eq!(buffered, parallel);
}

#[test]
fn chunk_boundaries_do_not_matter() {
    let mut a = MultiHasher::new(&vec![Algorithm::ADLER32, Algorithm::SHA1], GostVariant::CryptoPro, TigerVariant::Tiger);
    a.update(b"a");
    a.update(b"");
    a.update(b"bc");
    let r = a.finish();
    assert_eq!(r, vec![
        (Algorithm::ADLER32, "024d0127".to_string()),
        (Algorithm::SHA1, "a9993e364706816aba3e25717850c26c9cd0d89d".to_string()),
    ]);
}

#[test]
fn variant_change_only_affects_its_algorithm() {
    let data = b"The quick brown fox jumps over the lazy dog";
    let algs = Algorithm::all();
    let a = calculate_hashes_from_buffer(data, &algs, GostVariant::CryptoPro, TigerVariant::Tiger);
    let b = calculate_hashes_from_buffer(data, &algs, GostVariant::Test, TigerVariant::Tiger);
    let c = calculate_hashes_from_buffer(data, &algs, GostVariant::CryptoPro, TigerVariant::Tiger2);
    for i in 0..algs.len() {
        let alg = algs[i];
        assert_eq!(a[i].1 != b[i].1, alg == Algorithm::GOST, "{:?}", alg);
        assert_eq!(a[i].1 != c[i].1, alg == Algorithm::TIGER192, "{:?}", alg);
    }
}

#[test]
fn tiger_words_are_reversed() {
    let mut h = TigerHasher::new(TigerVariant::Tiger);
    h.update(b"abc");
    let mut out = h.finalize();
    assert_eq!(hex::encode(&out), "f258c1e88414ab2a527ab541ffc5b8bf935f7b951c132951");
    reverse_words8(&mut out);
    assert_eq!(hex::encode(&out), "2aab1484e8c158f2bfb8c5ff41b57a525129131c957b5f93");
}

#[test]
fn tiger_word_order_on_tiger_input() {
    let r = calculate_hash_from_data(b"Tiger", &Algorithm::TIGER192, GostVariant::CryptoPro, TigerVariant::Tiger);
    assert_eq!(r, "9f00f599072300dd276abb38c8eb6dec37790c116f9d2bdf");
}

#[test]
fn reverse_words8_handles_short_last_word() {
    let mut b: Vec<u8> = (1..=11).collect();
    reverse_words8(&mut b);
    assert_eq!(b, vec![8, 7, 6, 5, 4, 3, 2, 1, 11, 10, 9]);
    let mut empty: Vec<u8> = Vec::new();
    reverse_words8(&mut empty);
    assert!(empty.is_empty());
}

#[test]
fn gost_adapter_keeps_byte_order() {
    let mut h = GostHasher::new(GostVariant::CryptoPro);
    h.update(b"a");
    h.update(b"bc");
    assert_eq!(hex::encode(h.finalize()), "b285056dbf18d7392d7677369524dd14747459ed8143997e163b2986f92fd42c");
}

#[test]
fn read_failure_gives_same_error_to_all() {
    let algs = vec![Algorithm::MD5, Algorithm::SHA256, Algorithm::MD5, Algorithm::CRC32];
    let mut engine = MultiHasher::new(&algs, GostVariant::CryptoPro, TigerVariant::Tiger);
    engine.update(b"partial data");
    let r = engine.fail("disk vanished");
    assert_eq!(r, vec![
        (Algorithm::MD5, "Error reading file: disk vanished".to_string()),
        (Algorithm::SHA256, "Error reading file: disk vanished".to_string()),
        (Algorithm::CRC32, "Error reading file: disk vanished".to_string()),
    ]);
}

#[test]
fn access_error_for_every_algorithm() {
    let algs = vec![Algorithm::SHA1, Algorithm::GOST];
    let r = error_results(&algs, "No such file or directory (os error 2)");
    assert_eq!(r, vec![
        (Algorithm::SHA1, "Error: No such file or directory (os error 2)".to_string()),
        (Algorithm::GOST, "Error: No such file or directory (os error 2)".to_string()),
    ]);
}

#[test]
fn empty_file_through_chunked_engine() {
    let algs = vec![Algorithm::MD5, Algorithm::ADLER32];
    let engine = MultiHasher::new(&algs, GostVariant::CryptoPro, TigerVariant::Tiger);
    let r = engine.finish();
    assert_eq!(r, vec![
        (Algorithm::MD5, "d41d8cd98f00b204e9800998ecf8427e".to_string()),
        (Algorithm::ADLER32, "00000001".to_string()),
    ]);
    let b = calculate_hashes_from_buffer(b"", &algs, GostVariant::CryptoPro, TigerVariant::Tiger);
    assert_eq!(r, b);
}

#[test]
fn duplicates_are_requested_once() {
    let algs = vec![Algorithm::SHA1, Algorithm::MD5, Algorithm::SHA1, Algorithm::MD4, Algorithm::MD5];
    assert_eq!(requested_algorithms(&algs), vec![Algorithm::SHA1, Algorithm::MD5, Algorithm::MD4]);
    assert!(requested_algorithms(&Vec::new()).is_empty());
}

#[test]
fn failed_units_are_dropped() {
    let units = vec![
        Some((Algorithm::MD5, "x".to_string())),
        None,
        Some((Algorithm::SHA1, "y".to_string())),
    ];
    assert_eq!(collect_completed(units), vec![
        (Algorithm::MD5, "x".to_string()),
        (Algorithm::SHA1, "y".to_string()),
    ]);
}

#[test]
fn strategy_selection() {
    assert_eq!(select_strategy(10, true), Strategy::Mapped);
    assert_eq!(select_strategy(u64::MAX, true), Strategy::Mapped);
    assert_eq!(select_strategy(0, false), Strategy::FullBuffer);
    assert_eq!(select_strategy(MMAP_THRESHOLD, false), Strategy::FullBuffer);
    assert_eq!(select_strategy(MMAP_THRESHOLD + 1, false), Strategy::Chunked);
    assert_eq!(chunk_size(LARGE_FILE_THRESHOLD), BUFFER_SIZE);
    assert_eq!(chunk_size(LARGE_FILE_THRESHOLD + 1), LARGE_BUFFER_SIZE);
    assert_eq!(BUFFER_SIZE, 2 * 1024 * 1024);
    assert_eq!(LARGE_BUFFER_SIZE, 4 * 1024 * 1024);
    assert!(use_parallel(Strategy::Mapped, 2));
    assert!(!use_parallel(Strategy::Mapped, 1));
    assert!(!use_parallel(Strategy::Chunked, 5));
    assert!(!single_pass_tries_mapping(0));
    assert!(single_pass_tries_mapping(1));
    assert!(!single_pass_tries_mapping(MMAP_THRESHOLD + 1));
}

#[test]
fn whole_read_failure_gives_same_error_to_all() {
    let algs = vec![Algorithm::TIGER192, Algorithm::GOST, Algorithm::TIGER192];
    let r = read_error_results(&algs, "Input/output error (os error 5)");
    assert_eq!(r, vec![
        (Algorithm::TIGER192, "Error reading file: Input/output error (os error 5)".to_string()),
        (Algorithm::GOST, "Error reading file: Input/output error (os error 5)".to_string()),
    ]);
}

#[test]
fn digest_lengths() {
    let lens = [16, 16, 20, 32, 48, 64, 28, 32, 48, 64, 64, 32, 20, 24, 64, 32, 4, 4];
    for (alg, n) in Algorithm::all().into_iter().zip(lens) {
        let r = calculate_hash_from_data(b"xyz", &alg, GostVariant::Test, TigerVariant::Tiger2);
        assert_eq!(r.len(), 2 * n, "{:?}", alg);
    }
}
