use kafka_primitives::{KafkaDeserializer, KafkaSerializer};

#[test]
fn test_i32_roundtrip() {
    let mut ser = KafkaSerializer::new(Vec::new());
    ser.write_i32(42).unwrap();
    let buffer = ser.into_inner();

    let mut de = KafkaDeserializer::new(buffer);
    let val = de.read_i32().unwrap();
    assert_eq!(val, 42);
}

#[test]
fn test_i8_roundtrip() {
    let mut ser = KafkaSerializer::new(Vec::new());
    ser.write_i8(-5).unwrap(); // 0xFB
    let buffer = ser.into_inner();

    let mut de = KafkaDeserializer::new(buffer);
    let val = de.read_i8().unwrap();
    assert_eq!(val, -5);
}

#[test]
fn test_i32_custom_roundtrip() {
    let mut ser = KafkaSerializer::new(Vec::new());
    ser.write_i32(42).expect("Failed to write i32");
    let buffer = ser.into_inner();

    let mut de = KafkaDeserializer::new(buffer);
    let val = de.read_i32().expect("Failed to read i32");
    assert_eq!(val, 42);
}

#[test]
fn test_i16_roundtrip() {
    let mut ser = KafkaSerializer::new(Vec::new());
    ser.write_i16(-12345).unwrap();
    let mut de = KafkaDeserializer::new(ser.into_inner());
    assert_eq!(de.read_i16().unwrap(), -12345);
}

#[test]
fn test_i64_roundtrip() {
    let mut ser = KafkaSerializer::new(Vec::new());
    ser.write_i64(-1_234_567_890_123).unwrap();
    let mut de = KafkaDeserializer::new(ser.into_inner());
    assert_eq!(de.read_i64().unwrap(), -1_234_567_890_123);
}

#[test]
fn test_i32_exact_bytes() {
    // 42 as a 32-bit big-endian integer is [0x00, 0x00, 0x00, 0x2A].
    let mut ser = KafkaSerializer::new(Vec::new());
    ser.write_i32(42).unwrap();
    assert_eq!(ser.into_inner(), vec![0x00, 0x00, 0x00, 0x2A]);

    let mut de = KafkaDeserializer::new(vec![0x00, 0x00, 0x00, 0x2A]);
    assert_eq!(de.read_i32().unwrap(), 42);
}

#[test]
fn test_i8_negative_exact_byte() {
    // -5 as an 8-bit two's-complement integer is the single byte 0xFB.
    let mut ser = KafkaSerializer::new(Vec::new());
    ser.write_i8(-5).unwrap();
    assert_eq!(ser.into_inner(), vec![0xFB]);

    let mut de = KafkaDeserializer::new(vec![0xFB]);
    assert_eq!(de.read_i8().unwrap(), -5);
}

#[test]
fn test_i64_exact_bytes() {
    let mut ser = KafkaSerializer::new(Vec::new());
    ser.write_i64(-2).unwrap();
    assert_eq!(
        ser.into_inner(),
        vec![0xFF, 0xFF, 0xFF, 0xFF, 0xFF, 0xFF, 0xFF, 0xFE]
    );
}

#[test]
fn test_boundary_values_roundtrip() {
    let mut ser = KafkaSerializer::new(Vec::new());
    ser.write_i8(i8::MIN).unwrap();
    ser.write_i8(i8::MAX).unwrap();
    ser.write_i16(-32768).unwrap();
    ser.write_i16(32767).unwrap();
    ser.write_i32(i32::MIN).unwrap();
    ser.write_i32(i32::MAX).unwrap();
    ser.write_i64(i64::MIN).unwrap();
    ser.write_i64(i64::MAX).unwrap();

    let mut de = KafkaDeserializer::new(ser.into_inner());
    assert_eq!(de.read_i8().unwrap(), i8::MIN);
    assert_eq!(de.read_i8().unwrap(), i8::MAX);
    assert_eq!(de.read_i16().unwrap(), -32768);
    assert_eq!(de.read_i16().unwrap(), 32767);
    assert_eq!(de.read_i32().unwrap(), i32::MIN);
    assert_eq!(de.read_i32().unwrap(), i32::MAX);
    assert_eq!(de.read_i64().unwrap(), i64::MIN);
    assert_eq!(de.read_i64().unwrap(), i64::MAX);
    assert_eq!(de.remaining(), 0);
}

#[test]
fn test_byte_count_exactness() {
    // Each width writes exactly w/8 bytes...
    let mut ser = KafkaSerializer::new(Vec::new());
    ser.write_i8(7).unwrap();
    ser.write_i16(7).unwrap();
    ser.write_i32(7).unwrap();
    ser.write_i64(7).unwrap();
    let bytes = ser.into_inner();
    assert_eq!(bytes.len(), 1 + 2 + 4 + 8);

    // ...and each width consumes exactly w/8 bytes, never more, never fewer.
    let mut de = KafkaDeserializer::new(bytes);
    de.read_i8().unwrap();
    assert_eq!(de.remaining(), 14);
    de.read_i16().unwrap();
    assert_eq!(de.remaining(), 12);
    de.read_i32().unwrap();
    assert_eq!(de.remaining(), 8);
    de.read_i64().unwrap();
    assert_eq!(de.remaining(), 0);
}
