use cross_check::{CrossCheckHasher, Djb2Hasher, Float32, Float64, JodyHasher, SimpleHasher};

#[test]
fn fresh_hashers_report_their_initial_digest() {
    assert_eq!(Djb2Hasher::default().finish(), 5381);
    assert_eq!(SimpleHasher::default().finish(), 0x9E37_79B9_7F4A_7C15);
    assert_eq!(JodyHasher::default().finish(), 0);
}

#[test]
fn djb2_mixes_little_endian_bytes() {
    let mut h = Djb2Hasher::default();
    h.write_u8(5);
    assert_eq!(h.finish(), 177578);

    let mut h = Djb2Hasher::default();
    h.write_u32(42);
    assert_eq!(h.finish(), 2087982959);

    let mut h = Djb2Hasher::default();
    h.write_u16(5);
    assert_eq!(h.finish(), 5860074);

    let mut h = Djb2Hasher::default();
    h.write_u64(5);
    assert_eq!(h.finish(), 419197546);
}

#[test]
fn djb2_byte_order_matters() {
    let mut low = Djb2Hasher::default();
    low.write_u16(0x0102);
    let mut high = Djb2Hasher::default();
    high.write_u16(0x0201);
    assert_ne!(low.finish(), high.finish());

    let mut bytes = Djb2Hasher::default();
    bytes.write_u8(0x02);
    bytes.write_u8(0x01);
    assert_eq!(low.finish(), bytes.finish());
}

#[test]
fn djb2_signed_values_write_twos_complement() {
    let mut h = Djb2Hasher::default();
    h.write_i8(-1);
    assert_eq!(h.finish(), 177828);

    let mut h = Djb2Hasher::default();
    h.write_i32(-2);
    assert_eq!(h.finish(), 2095887968);

    let mut h = Djb2Hasher::default();
    h.write_i64(-1);
    assert_eq!(h.finish(), 3824348797);

    let mut signed = Djb2Hasher::default();
    signed.write_i16(-2);
    let mut unsigned = Djb2Hasher::default();
    unsigned.write_u16(0xfffe);
    assert_eq!(signed.finish(), unsigned.finish());
}

#[test]
fn djb2_can_collide_within_one_width() {
    let mut a = Djb2Hasher::default();
    a.write_u16(0x2100);
    let mut b = Djb2Hasher::default();
    b.write_u16(0x0001);
    assert_eq!(a.finish(), 5859942);
    assert_eq!(b.finish(), 5859942);
}

#[test]
fn simple_rotates_and_adds() {
    let mut h = SimpleHasher::default();
    h.write_u32(42);
    assert_eq!(h.finish(), 14622967194012582621);

    let mut h = SimpleHasher::default();
    h.write_u8(5);
    assert_eq!(h.finish(), 14406794411898798776);

    let mut h = SimpleHasher::default();
    h.write_i16(-2);
    assert_eq!(h.finish(), 14478852005936792241);

    let mut h = SimpleHasher::default();
    h.write_u8(1);
    h.write_u16(2);
    assert_eq!(h.finish(), 18439678599808177818);
}

#[test]
fn simple_matches_its_formula() {
    let value: u64 = 0x0123_4567_89ab_cdef;
    let mut h = SimpleHasher::default();
    h.write_u64(value);
    let expected = 0x9E37_79B9_7F4A_7C15u64
        .rotate_left(5)
        .wrapping_add(value)
        .wrapping_add(8 << 56);
    assert_eq!(h.finish(), expected);
}

#[test]
fn jody_runs_one_round_per_write() {
    let mut h = JodyHasher::default();
    h.write_u32(42);
    assert_eq!(h.finish(), 140691009011440551);

    let mut h = JodyHasher::default();
    h.write_u8(5);
    assert_eq!(h.finish(), 140690999616478079);

    let mut h = JodyHasher::default();
    h.write_u8(1);
    h.write_u16(2);
    assert_eq!(h.finish(), 9072404071677355558);
}

#[test]
fn jody_matches_its_formula() {
    let value: u64 = 0xfedc_ba98_7654_3210;
    let constant: u64 = 0x1f3d_5b79;
    let mut h = JodyHasher::default();
    h.write_u64(value);
    let mut expected = 0u64.wrapping_add(value).wrapping_add(constant);
    expected = expected.rotate_left(14) ^ value;
    expected = expected.rotate_left(14) ^ constant;
    expected = expected.wrapping_add(value).wrapping_add(8);
    assert_eq!(h.finish(), expected);
}

#[test]
fn usize_is_written_at_pointer_width() {
    let value: usize = 0x1234_5678;
    let mut native = Djb2Hasher::default();
    native.write_usize(value);
    let mut sized = Djb2Hasher::default();
    if usize::BITS == 64 {
        sized.write_u64(value as u64);
    } else {
        sized.write_u32(value as u32);
    }
    assert_eq!(native.finish(), sized.finish());

    let mut native = SimpleHasher::default();
    native.write_isize(-3);
    let mut sized = SimpleHasher::default();
    if usize::BITS == 64 {
        sized.write_i64(-3);
    } else {
        sized.write_i32(-3);
    }
    assert_eq!(native.finish(), sized.finish());
}

#[test]
fn write_bool_is_a_byte_of_zero_or_one() {
    let mut h = Djb2Hasher::default();
    h.write_bool(true);
    assert_eq!(h.finish(), 177574);

    let mut flag = SimpleHasher::default();
    flag.write_bool(false);
    let mut byte = SimpleHasher::default();
    byte.write_u8(0);
    assert_eq!(flag.finish(), byte.finish());

    let mut flag = JodyHasher::default();
    flag.write_bool(true);
    let mut byte = JodyHasher::default();
    byte.write_u8(1);
    assert_eq!(flag.finish(), byte.finish());
}

#[test]
fn write_char_is_the_code_point_on_32_bits() {
    let mut h = Djb2Hasher::default();
    h.write_char('A');
    assert_eq!(h.finish(), 2088809510);

    let mut h = Djb2Hasher::default();
    h.write_char('\u{1F600}');
    assert_eq!(h.finish(), 2086741532);

    let mut letter = SimpleHasher::default();
    letter.write_char('z');
    let mut code = SimpleHasher::default();
    code.write_u32(122);
    assert_eq!(letter.finish(), code.finish());
}

#[test]
fn write_f32_is_the_bit_pattern_on_32_bits() {
    let mut h = SimpleHasher::default();
    h.write_f32(Float32::from_bits(1.5f32.to_bits()));
    assert_eq!(h.finish(), 14622967195082130099);

    let mut number = Djb2Hasher::default();
    number.write_f32(Float32::from_bits(f32::NAN.to_bits()));
    let mut bits = Djb2Hasher::default();
    bits.write_u32(f32::NAN.to_bits());
    assert_eq!(number.finish(), bits.finish());
}

#[test]
fn write_f64_is_the_bit_pattern_on_64_bits() {
    let mut h = SimpleHasher::default();
    h.write_f64(Float64::from_bits(1.5f64.to_bits()));
    assert_eq!(h.finish(), 1073887715068445363);

    let mut number = JodyHasher::default();
    number.write_f64(Float64::from_bits((-0.0f64).to_bits()));
    let mut bits = JodyHasher::default();
    bits.write_u64(0x8000_0000_0000_0000);
    assert_eq!(number.finish(), bits.finish());
}

#[test]
fn float_wrappers_keep_their_bits() {
    assert_eq!(Float32::from_bits(0x7fc0_0001).to_bits(), 0x7fc0_0001);
    assert_eq!(Float64::from_bits(0xfff8_0000_0000_0002).to_bits(), 0xfff8_0000_0000_0002);
    assert_eq!(Float32::from_bits(2.25f32.to_bits()).bits, 0x4010_0000);
}

#[test]
fn finish_can_be_repeated_and_does_not_end_the_stream() {
    let mut h = Djb2Hasher::default();
    h.write_u8(1);
    let first = h.finish();
    assert_eq!(h.finish(), first);
    h.write_u16(2);
    assert_eq!(h.finish(), 193378152);

    let mut whole = Djb2Hasher::default();
    whole.write_u8(1);
    whole.write_u16(2);
    assert_eq!(whole.finish(), h.finish());
}

#[test]
fn equal_write_sequences_give_equal_digests() {
    let mut a = JodyHasher::default();
    let mut b = JodyHasher::default();
    a.write_u32(7);
    a.write_i64(-9);
    a.write_bool(true);
    b.write_u32(7);
    b.write_i64(-9);
    b.write_bool(true);
    assert_eq!(a.finish(), b.finish());
}

#[test]
fn hashers_do_not_share_state() {
    let mut a = SimpleHasher::default();
    a.write_u64(99);
    let b = SimpleHasher::default();
    assert_eq!(b.finish(), 0x9E37_79B9_7F4A_7C15);
    assert_ne!(a.finish(), b.finish());
}

#[test]
fn every_backend_separates_widths_of_one_number() {
    let mut narrow = Djb2Hasher::default();
    narrow.write_u16(5);
    let mut wide = Djb2Hasher::default();
    wide.write_u32(5);
    assert_ne!(narrow.finish(), wide.finish());

    let mut narrow = SimpleHasher::default();
    narrow.write_u16(5);
    let mut wide = SimpleHasher::default();
    wide.write_u32(5);
    assert_ne!(narrow.finish(), wide.finish());

    let mut narrow = JodyHasher::default();
    narrow.write_u16(5);
    let mut wide = JodyHasher::default();
    wide.write_u32(5);
    assert_ne!(narrow.finish(), wide.finish());
}
