use fenris::compression::{CompressionManager, NullCompressor, ZlibCompressor};

#[test]
fn test_zlib_compress_decompress() {
    let manager = CompressionManager::default();

    let original = b"Hello, World!  This is test data.";
    let compressed = manager.compress(original).unwrap();
    let decompressed = manager.decompress(&compressed).unwrap();

    assert_eq!(decompressed, original);
}

#[test]
fn test_compression_level() {
    let manager = CompressionManager::new(
        ZlibCompressor::with_level(9), // Maximum compression
    );

    let data = b"AAAAAAAAAA".repeat(1000);
    let compressed = manager.compress(&data).unwrap();

    assert!(compressed.len() < data.len() / 10);
}

#[test]
fn test_null_compressor() {
    let manager = CompressionManager::new(NullCompressor);

    let data = b"Test data";
    let compressed = manager.compress(data).unwrap();

    // Should be unchanged
    assert_eq!(compressed, data);

    let decompressed = manager.decompress(&compressed).unwrap();
    assert_eq!(decompressed, data);
}

#[test]
fn test_algorithm_name() {
    let zlib_manager = CompressionManager::default();
    assert_eq!(zlib_manager.compressor_name(), "none");

    let null_manager = CompressionManager::new(ZlibCompressor::new());
    assert_eq!(null_manager.compressor_name(), "zlib");
}

#[test]
fn test_zlib_levels_compress() {
    // Every level flate2 accepts succeeds and round-trips.
    let data = b"level test data, level test data, level test data";
    for level in 0..=9u32 {
        let manager = CompressionManager::new(ZlibCompressor::with_level(level));
        let compressed = manager.compress(data).unwrap();
        assert_eq!(manager.decompress(&compressed).unwrap(), data);
    }
}

#[test]
fn test_zlib_roundtrip_and_corrupt_stream() {
    let manager = CompressionManager::new(ZlibCompressor::new());
    let data = b"some zlib payload with repetition repetition repetition";
    let compressed = manager.compress(data).unwrap();
    let decompressed = manager.decompress(&compressed).unwrap();
    assert_eq!(decompressed, data);
    assert!(manager.decompress(b"definitely not zlib").is_err());
}
