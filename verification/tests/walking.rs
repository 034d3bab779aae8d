use bit_patterns::make_walking_bit_data;
use bit_patterns::make_walking_bit_data16;

#[test]
fn walking_1s_test() {
    let result = make_walking_bit_data(37, true);
    assert_eq!(
        result,
        vec![
            0x0000_0001,
            0x0000_0002,
            0x0000_0004,
            0x0000_0008,
            0x0000_0010,
            0x0000_0020,
            0x0000_0040,
            0x0000_0080,
            0x0000_0100,
            0x0000_0200,
            0x0000_0400,
            0x0000_0800,
            0x0000_1000,
            0x0000_2000,
            0x0000_4000,
            0x0000_8000,
            0x0001_0000,
            0x0002_0000,
            0x0004_0000,
            0x0008_0000,
            0x0010_0000,
            0x0020_0000,
            0x0040_0000,
            0x0080_0000,
            0x0100_0000,
            0x0200_0000,
            0x0400_0000,
            0x0800_0000,
            0x1000_0000,
            0x2000_0000,
            0x4000_0000,
            0x8000_0000,
            0x8000_0000,
            0x4000_0000,
            0x2000_0000,
            0x1000_0000,
            0x0800_0000,
        ]
    );
}

#[test]
fn walking_0s_test() {
    let result = make_walking_bit_data(37, false);
    assert_eq!(
        result,
        vec![
            0xFFFF_FFFE,
            0xFFFF_FFFD,
            0xFFFF_FFFB,
            0xFFFF_FFF7,
            0xFFFF_FFEF,
            0xFFFF_FFDF,
            0xFFFF_FFBF,
            0xFFFF_FF7F,
            0xFFFF_FEFF,
            0xFFFF_FDFF,
            0xFFFF_FBFF,
            0xFFFF_F7FF,
            0xFFFF_EFFF,
            0xFFFF_DFFF,
            0xFFFF_BFFF,
            0xFFFF_7FFF,
            0xFFFE_FFFF,
            0xFFFD_FFFF,
            0xFFFB_FFFF,
            0xFFF7_FFFF,
            0xFFEF_FFFF,
            0xFFDF_FFFF,
            0xFFBF_FFFF,
            0xFF7F_FFFF,
            0xFEFF_FFFF,
            0xFDFF_FFFF,
            0xFBFF_FFFF,
            0xF7FF_FFFF,
            0xEFFF_FFFF,
            0xDFFF_FFFF,
            0xBFFF_FFFF,
            0x7FFF_FFFF,
            0x7FFF_FFFF,
            0xBFFF_FFFF,
            0xDFFF_FFFF,
            0xEFFF_FFFF,
            0xF7FF_FFFF,
        ]
    );
}

#[test]
fn walking_1s_16bit_test() {
    let result = make_walking_bit_data16(10, true);
    assert_eq!(
        result,
        vec![0x0001, 0x0002, 0x0004, 0x0008, 0x0010, 0x0020, 0x0040, 0x0080, 0x0100, 0x0200]
    );
}

#[test]
fn walking_0s_16bit_test() {
    let result = make_walking_bit_data16(10, false);
    assert_eq!(
        result,
        vec![0xFFFE, 0xFFFD, 0xFFFB, 0xFFF7, 0xFFEF, 0xFFDF, 0xFFBF, 0xFF7F, 0xFEFF, 0xFDFF]
    );
}

#[test]
fn walking_16bit_full_sweep_test() {
    let result = make_walking_bit_data16(20, true);
    assert_eq!(
        result,
        vec![
            0x0001, 0x0002, 0x0004, 0x0008, 0x0010, 0x0020, 0x0040, 0x0080, 0x0100, 0x0200,
            0x0400, 0x0800, 0x1000, 0x2000, 0x4000, 0x8000, 0x8000, 0x4000, 0x2000, 0x1000,
        ]
    );
}

#[test]
fn walking_length_test() {
    assert_eq!(make_walking_bit_data(0, true).len(), 0);
    assert_eq!(make_walking_bit_data(0, false).len(), 0);
    assert_eq!(make_walking_bit_data16(0, true).len(), 0);
    assert_eq!(make_walking_bit_data16(0, false).len(), 0);
    assert_eq!(make_walking_bit_data(129, true).len(), 129);
    assert_eq!(make_walking_bit_data16(77, false).len(), 77);
}

#[test]
fn walking_complement_test() {
    let ones = make_walking_bit_data(150, true);
    let zeros = make_walking_bit_data(150, false);
    for i in 0..150 {
        assert_eq!(ones[i], !zeros[i]);
    }
    let ones16 = make_walking_bit_data16(150, true);
    let zeros16 = make_walking_bit_data16(150, false);
    for i in 0..150 {
        assert_eq!(ones16[i], !zeros16[i] & 0xFFFF);
    }
}

#[test]
fn walking_anchor_test() {
    let ones = make_walking_bit_data(200, true);
    assert_eq!(ones[0], 1);
    assert_eq!(ones[64], 1);
    assert_eq!(ones[128], 1);
    assert_eq!(ones[192], 1);
    let ones16 = make_walking_bit_data16(100, true);
    assert_eq!(ones16[0], 1);
    assert_eq!(ones16[32], 1);
    assert_eq!(ones16[64], 1);
    assert_eq!(ones16[96], 1);
}

#[test]
fn walking_period_test() {
    let ones = make_walking_bit_data(200, true);
    for i in 0..136 {
        assert_eq!(ones[i], ones[i + 64]);
    }
    let zeros16 = make_walking_bit_data16(100, false);
    for i in 0..68 {
        assert_eq!(zeros16[i], zeros16[i + 32]);
    }
}

#[test]
fn walking_deterministic_test() {
    assert_eq!(
        make_walking_bit_data(100, true),
        make_walking_bit_data(100, true)
    );
    assert_eq!(
        make_walking_bit_data(100, false),
        make_walking_bit_data(100, false)
    );
    assert_eq!(
        make_walking_bit_data16(100, true),
        make_walking_bit_data16(100, true)
    );
    assert_eq!(
        make_walking_bit_data16(100, false),
        make_walking_bit_data16(100, false)
    );
}

#[test]
fn walking_16bit_container_test() {
    for word in make_walking_bit_data16(100, false) {
        assert_eq!(word & 0xFFFF_0000, 0);
    }
    for word in make_walking_bit_data16(100, true) {
        assert_eq!(word & 0xFFFF_0000, 0);
    }
}
