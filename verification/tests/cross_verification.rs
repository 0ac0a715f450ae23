use bincode;

// ============================================================================
// Configuration Functions
// ============================================================================

/// Variable-length encoding config (LEB128)
fn variable_config() -> impl bincode::config::Config {
    bincode::config::standard()
        .with_little_endian()
        .with_variable_int_encoding()
        .with_limit::<4294967305>()
}

/// Fixed 8-byte encoding config
fn fixed8_config() -> impl bincode::config::Config {
    bincode::config::standard()
        .with_little_endian()
        .with_fixed_int_encoding()
        .with_limit::<4294967305>()
}

// ============================================================================
// Test Case Data
// ============================================================================

/// Get expected data for roundtrip tests
fn get_expected_data() -> Vec<Vec<u8>> {
    vec![
        vec![1u8, 2, 3, 4, 5],
        vec![],
        vec![0u8, 255, 128, 64],
        ("Hello, World!".as_bytes().to_vec()),
        vec![42u8],
        ("Test with Ã©mojis ðŸš€".as_bytes().to_vec()),
        vec![1u8; 100],
    ]
}

// ============================================================================
// Variable-Length Encoding (LEB128) Tests
// ============================================================================

#[test]
fn test_byte_for_byte_compatibility_variable() {
    // Test that Rust variable-length encoding roundtrips correctly
    // Use a subset of expected data to avoid very large allocations
    let test_cases: Vec<Vec<u8>> = get_expected_data().into_iter().take(7).collect();

    for original in test_cases {
        let encoded = bincode::encode_to_vec(&original, variable_config())
            .expect("Rust variable-length serialization failed");

        let (decoded, bytes_read): (Vec<u8>, _) =
            bincode::decode_from_slice(&encoded, variable_config())
                .expect("Rust variable-length deserialization failed");

        assert_eq!(
            bytes_read,
            encoded.len(),
            "All bytes should be consumed for variable encoding"
        );
        assert_eq!(
            decoded, original,
            "Variable-length roundtrip should preserve data"
        );
    }
}

// ============================================================================
// Fixed 8-byte Encoding Tests
// ============================================================================

#[test]
fn test_byte_for_byte_compatibility_fixed8() {
    // Test that Rust fixed 8-byte encoding roundtrips correctly
    // Use a subset of expected data to avoid very large allocations
    let test_cases: Vec<Vec<u8>> = get_expected_data().into_iter().take(7).collect();

    for original in test_cases {
        let encoded = bincode::encode_to_vec(&original, fixed8_config())
            .expect("Rust fixed8 serialization failed");

        let (decoded, bytes_read): (Vec<u8>, _) =
            bincode::decode_from_slice(&encoded, fixed8_config())
                .expect("Rust fixed8 deserialization failed");

        assert_eq!(
            bytes_read,
            encoded.len(),
            "All bytes should be consumed for fixed8 encoding"
        );
        assert_eq!(
            decoded, original,
            "Fixed8 roundtrip should preserve data"
        );
    }
}
