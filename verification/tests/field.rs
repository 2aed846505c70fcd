use recursive_zkp::field::Fr;

#[test]
fn product_of_small_numbers() {
    let p = Fr::from_u64(17);
    let q = Fr::from_u64(23);
    assert_eq!(p.mul(&q), Fr::from_u64(391));
}

#[test]
fn sum_wraps_at_the_field_order() {
    // The field order minus one, plus two, is one.
    let top = Fr::from_limbs(
        0xffff_ffff_0000_0000,
        0x53bd_a402_fffe_5bfe,
        0x3339_d808_09a1_d805,
        0x73ed_a753_299d_7d48,
    )
    .unwrap();
    assert_eq!(top.add(&Fr::from_u64(2)), Fr::one());
}

#[test]
fn canonical_encodings_only() {
    let order = [
        0x01, 0x00, 0x00, 0x00, 0xff, 0xff, 0xff, 0xff, 0xfe, 0x5b, 0xfe, 0xff, 0x02, 0xa4, 0xbd,
        0x53, 0x05, 0xd8, 0xa1, 0x09, 0x08, 0xd8, 0x39, 0x33, 0x48, 0x7d, 0x9d, 0x29, 0x53, 0xa7,
        0xed, 0x73u8,
    ];
    assert_eq!(Fr::from_bytes(&order), None);
    let mut below = order;
    below[0] = 0;
    let top = Fr::from_bytes(&below).unwrap();
    assert_eq!(top.add(&Fr::one()), Fr::zero());
    assert_eq!(top.to_limbs()[3], 0x73ed_a753_299d_7d48);
    assert_eq!(Fr::from_limbs(0, 0, 0, 0x73ed_a753_299d_7d49), None);
    assert_eq!(Fr::from_limbs(5, 0, 0, 0), Some(Fr::from_u64(5)));
    let mut five = [0u8; 32];
    five[0] = 5;
    assert_eq!(Fr::from_bytes(&five), Some(Fr::from_u64(5)));
}

#[test]
fn wide_numbers_are_reduced() {
    let mut wide = [0u8; 64];
    wide[32] = 1; // 2^256
    let reduced = Fr::from_wide(&wide);
    // 2^256 mod the field order
    assert_eq!(
        reduced,
        Fr::from_limbs(
            0x0000_0001_ffff_fffe,
            0x5884_b7fa_0003_4802,
            0x998c_4fef_ecbc_4ff5,
            0x1824_b159_acc5_056f
        )
        .unwrap()
    );
    assert_eq!(Fr::from_be_bytes_reduced(&[1, 0]), Fr::from_u64(256));
    assert_eq!(Fr::from_be_bytes_reduced(&[]), Fr::zero());
    let mut big = [0u8; 33];
    big[0] = 1;
    assert_eq!(Fr::from_be_bytes_reduced(&big), reduced);
}
