use sendcore::flags::{send_flags, NOSIGNAL_FLAG, ZEROCOPY_FLAG, ZEROCOPY_THRESHOLD};

#[test]
fn zero_copy_at_threshold() {
    assert_eq!(ZEROCOPY_THRESHOLD, 10 * 1024 * 1024);
    assert_eq!(
        send_flags(true, 10 * 1024 * 1024),
        NOSIGNAL_FLAG | ZEROCOPY_FLAG
    );
}

#[test]
fn no_zero_copy_one_byte_below_threshold() {
    assert_eq!(send_flags(true, 10 * 1024 * 1024 - 1), NOSIGNAL_FLAG);
}

#[test]
fn no_zero_copy_when_disabled() {
    assert_eq!(send_flags(false, 10 * 1024 * 1024), NOSIGNAL_FLAG);
    assert_eq!(send_flags(false, 64 * 1024 * 1024), NOSIGNAL_FLAG);
}

#[test]
fn zero_copy_decision_is_deterministic() {
    for len in [0usize, 1, 4096, 10 * 1024 * 1024 - 1, 10 * 1024 * 1024, 1 << 30] {
        let first = send_flags(true, len);
        let second = send_flags(true, len);
        assert_eq!(first, second);
        let expect_zc = len >= ZEROCOPY_THRESHOLD;
        assert_eq!(first & ZEROCOPY_FLAG != 0, expect_zc);
        assert_eq!(first & NOSIGNAL_FLAG, NOSIGNAL_FLAG);
    }
}

#[test]
fn exact_flag_values() {
    assert_eq!(NOSIGNAL_FLAG, 0x4000);
    assert_eq!(ZEROCOPY_FLAG, 0x400_0000);
    assert_eq!(send_flags(true, 10 * 1024 * 1024), 0x400_4000);
}
