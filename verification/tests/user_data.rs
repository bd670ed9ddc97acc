use libublk::build_user_data;
use libublk::is_target_io;
use libublk::round_up;
use libublk::user_data_to_op;
use libublk::user_data_to_tag;
use libublk::user_data_to_tgt_data;

#[test]
fn user_data_has_the_documented_layout() {
    assert_eq!(build_user_data(1, 0x21, 2, false), 0x0221_0001);
    assert_eq!(build_user_data(1, 0x21, 2, true), 0x8000_0000_0221_0001);
    assert_eq!(build_user_data(0, 0, 0, false), 0);
    assert_eq!(build_user_data(0, 0, 0, true), 1u64 << 63);
    assert_eq!(build_user_data(0xffff, 0xff, 0xff, true), 0x8000_0000_ffff_ffff);
}

#[test]
fn user_data_round_trip_on_edges() {
    let tags = [0u16, 1, 2, 127, 128, 255, 256, 4095, 0x7fff, 0x8000, 0xffff];
    let bytes = [0u32, 1, 0x20, 0x21, 0x7f, 0x80, 0xfe, 0xff];
    for tag in tags {
        for op in bytes {
            for sub in bytes {
                for tgt in [false, true] {
                    let ud = build_user_data(tag, op, sub, tgt);
                    assert_eq!(user_data_to_tag(ud), tag as u32);
                    assert_eq!(user_data_to_op(ud), op);
                    assert_eq!(user_data_to_tgt_data(ud), sub);
                    assert_eq!(is_target_io(ud), tgt);
                }
            }
        }
    }
}

#[test]
fn user_data_round_trip_all_ops_and_subtags() {
    for op in 0u32..256 {
        for sub in 0u32..256 {
            let ud = build_user_data(0x1234, op, sub, op % 2 == 0);
            assert_eq!(user_data_to_tag(ud), 0x1234);
            assert_eq!(user_data_to_op(ud), op);
            assert_eq!(user_data_to_tgt_data(ud), sub);
            assert_eq!(is_target_io(ud), op % 2 == 0);
        }
    }
}

#[test]
fn user_data_decoders_ignore_other_bits() {
    let ud = 0x7fff_ffff_0000_0000u64 | 0x0a0b_0c0d;
    assert_eq!(user_data_to_tag(ud), 0x0c0d);
    assert_eq!(user_data_to_op(ud), 0x0b);
    assert_eq!(user_data_to_tgt_data(ud), 0x0a);
    assert!(!is_target_io(ud));
    assert!(is_target_io(u64::MAX));
}

#[test]
fn round_up_to_power_of_two() {
    assert_eq!(round_up(0, 4096), 0);
    assert_eq!(round_up(1, 4096), 4096);
    assert_eq!(round_up(96, 4096), 4096);
    assert_eq!(round_up(4096, 4096), 4096);
    assert_eq!(round_up(4097, 4096), 8192);
    assert_eq!(round_up(7, 1), 7);
    assert_eq!(round_up(7, 2), 8);
    assert_eq!(round_up(u32::MAX - 4095, 4096), 0xffff_f000);
    assert_eq!(round_up(u32::MAX, 1), u32::MAX);
}

#[test]
fn round_up_is_least_multiple() {
    for shift in 0u32..16 {
        let rnd = 1u32 << shift;
        for val in [0u32, 1, 2, 3, 511, 512, 513, 4095, 4096, 4097, 65535, 65536, 1_000_000] {
            let r = round_up(val, rnd);
            assert_eq!(r % rnd, 0);
            assert!(r >= val);
            assert!(r - val < rnd);
        }
    }
}
