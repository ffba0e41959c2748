use kafka_primitives::{KafkaInt32, KafkaSerializer};

#[test]
fn test_typed_integer_value_model() {
    // The typed wrappers are value-semantic: copyable, comparable for
    // equality, and they carry exactly the wrapped value.
    let a = KafkaInt32(42);
    let b = a;
    assert_eq!(a, b);
    assert_eq!(a.0, 42);
    assert_ne!(a, KafkaInt32(43));
}

#[test]
fn test_generic_framework_divergence() {
    // The typed-integer wrappers hand their value to the generic
    // serialization framework's own integer handling, so the bytes produced
    // on that path are whatever the active format chooses. With a JSON
    // format, the 32-bit value 42 becomes ASCII text. The byte-level codec,
    // by contrast, guarantees big-endian fixed-width output. The two byte
    // sequences differ for the same logical value, and that divergence is
    // expected.
    let framework_bytes = serde_json::to_vec(&42i32).unwrap();
    assert_eq!(framework_bytes, b"42".to_vec());

    let mut ser = KafkaSerializer::new(Vec::new());
    ser.write_i32(42).unwrap();
    let codec_bytes = ser.into_inner();
    assert_eq!(codec_bytes, vec![0x00, 0x00, 0x00, 0x2A]);

    assert_ne!(framework_bytes, codec_bytes);
}
