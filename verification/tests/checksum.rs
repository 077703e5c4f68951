use arsync::protocol::checksum::{rolling_checksum, rolling_checksum_update, rolling_checksum_with_seed, strong_checksum};

#[test]
fn test_rolling_checksum_basic() {
    let data = b"Hello, World!";
    let checksum = rolling_checksum(data);
    assert_ne!(checksum, 0);
}

#[test]
fn test_rolling_checksum_update() {
    let data = b"Hello, World!";
    let block_size = 5;

    // Compute checksum for first block
    let block1 = &data[0..block_size];
    let checksum1 = rolling_checksum(block1);

    // Compute checksum for second block (shifted by 1)
    let block2 = &data[1..block_size + 1];
    let checksum2 = rolling_checksum(block2);

    // Update checksum1 by removing data[0] and adding data[block_size]
    let updated = rolling_checksum_update(checksum1, data[0], data[block_size], block_size);

    assert_eq!(updated, checksum2);
}

#[test]
fn test_strong_checksum() {
    let data1 = b"Hello, World!";
    let data2 = b"Hello, World!";
    let data3 = b"Hello, world!"; // Different case

    let checksum1 = strong_checksum(data1);
    let checksum2 = strong_checksum(data2);
    let checksum3 = strong_checksum(data3);

    assert_eq!(checksum1, checksum2);
    assert_ne!(checksum1, checksum3);
}

#[test]
fn test_rolling_window_slide() {
    // Test that we can slide a window over data and update checksums
    let data = b"ABCDEFGHIJK";
    let window_size = 3;

    let mut checksum = rolling_checksum(&data[0..window_size]);

    for i in 1..=(data.len() - window_size) {
        checksum = rolling_checksum_update(checksum, data[i - 1], data[i + window_size - 1], window_size);

        let expected = rolling_checksum(&data[i..i + window_size]);
        assert_eq!(checksum, expected, "Mismatch at position {}", i);
    }
}

#[test]
fn test_rolling_checksum_with_seed() {
    let data = b"Hello, World!";

    // Unseeded (seed=0) should match original
    let unseeded = rolling_checksum_with_seed(data, 0);
    let original = rolling_checksum(data);
    assert_eq!(unseeded, original);

    // Different seeds produce different checksums
    let seed1 = rolling_checksum_with_seed(data, 12345);
    let seed2 = rolling_checksum_with_seed(data, 67890);
    assert_ne!(seed1, seed2);
    assert_ne!(seed1, unseeded);
    assert_ne!(seed2, unseeded);
}

#[test]
fn test_seeded_checksum_deterministic() {
    let data = b"Test data";
    let seed = 0xDEADBEEF;

    // Same seed should give same result
    let checksum1 = rolling_checksum_with_seed(data, seed);
    let checksum2 = rolling_checksum_with_seed(data, seed);
    assert_eq!(checksum1, checksum2);
}

#[test]
fn test_seed_prevents_collisions() {
    let data1 = b"AB";
    let data2 = b"BA"; // Different data

    let _unseeded1 = rolling_checksum(data1);
    let _unseeded2 = rolling_checksum(data2);

    let seed = 0x12345678;
    let seeded1 = rolling_checksum_with_seed(data1, seed);
    let seeded2 = rolling_checksum_with_seed(data2, seed);

    // Even if unseeded collides, seeded makes them distinct
    assert_ne!(seeded1, seeded2);
}

#[test]
fn rolling_checksum_packs_two_sums() {
    // a = 1 + 2 + 3 = 6; b = 3*1 + 2*2 + 1*3 = 10
    assert_eq!(rolling_checksum(&[1, 2, 3]), (10 << 16) | 6);
    assert_eq!(rolling_checksum(&[]), 0);
}

#[test]
fn seeded_checksum_adds_the_seed_halves() {
    // seed low half 5 goes to a, high half 7 to b
    let seed = (7u32 << 16) | 5;
    assert_eq!(rolling_checksum_with_seed(&[1, 2, 3], seed), (32 << 16) | 11);
}

#[test]
fn strong_checksum_is_md5() {
    let digest = strong_checksum(b"");
    assert_eq!(
        digest,
        [0xd4, 0x1d, 0x8c, 0xd9, 0x8f, 0x00, 0xb2, 0x04, 0xe9, 0x80, 0x09, 0x98, 0xec, 0xf8, 0x42, 0x7e]
    );
    assert_ne!(strong_checksum(b"abc"), [0u8; 16]);
}
