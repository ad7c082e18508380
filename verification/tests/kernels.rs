use power10::bits::leading_zeros_u128;
use power10::logarithm::{
    floor_log10_u128, floor_log10_u16, floor_log10_u32, floor_log10_u64, floor_log10_u8,
    floor_log10_usize, LOG10_LZ_U128, LOG10_LZ_U16, LOG10_LZ_U32, LOG10_LZ_U64, LOG10_LZ_U8,
};
use power10::predicate::{
    is_pow10_u128, is_pow10_u16, is_pow10_u32, is_pow10_u64, is_pow10_u8, is_pow10_usize,
    POWER10_HASH_U128, POWER10_HASH_U16, POWER10_HASH_U32, POWER10_LZ_U64,
};

#[test]
fn kernel_u8_takes_one_ten_and_one_hundred() {
    assert_eq!(is_pow10_u8(1), true);
    assert_eq!(is_pow10_u8(10), true);
    assert_eq!(is_pow10_u8(100), true);
    assert_eq!(is_pow10_u8(0), false);
    assert_eq!(is_pow10_u8(2), false);
    assert_eq!(is_pow10_u8(9), false);
    assert_eq!(is_pow10_u8(11), false);
    assert_eq!(is_pow10_u8(99), false);
    assert_eq!(is_pow10_u8(101), false);
    assert_eq!(is_pow10_u8(200), false);
    assert_eq!(is_pow10_u8(255), false);
}

#[test]
fn kernel_u16_rejects_what_shares_a_slot() {
    // 8 to 15 share the slot of 10, and 0 to 7 that of 1
    for v in 0..16u16 {
        assert_eq!(is_pow10_u16(v), v == 1 || v == 10, "{}", v);
    }
    assert_eq!(is_pow10_u16(10000), true);
    assert_eq!(is_pow10_u16(10000 + 64), false);
    assert_eq!(is_pow10_u16(65535), false);
}

#[test]
fn kernel_u32_rejects_what_shares_a_slot() {
    // 16 and 32 hash to the slot of 10000, as zero does
    assert_eq!(is_pow10_u32(0), false);
    assert_eq!(is_pow10_u32(16), false);
    assert_eq!(is_pow10_u32(32), false);
    assert_eq!(is_pow10_u32(10000), true);
    assert_eq!(is_pow10_u32(1), true);
    assert_eq!(is_pow10_u32(17), false);
    assert_eq!(is_pow10_u32(1000000000), true);
    assert_eq!(is_pow10_u32(1000000000 + 16), false);
    assert_eq!(is_pow10_u32(4294967295), false);
}

#[test]
fn kernel_u32_on_a_stride() {
    let mut v: u32 = 0;
    loop {
        let expected = v != 0 && 1000000000 % v == 0 && v.to_string().starts_with('1')
            && v.to_string()[1..].bytes().all(|b| b == b'0');
        assert_eq!(is_pow10_u32(v), expected, "{}", v);
        match v.checked_add(4099) {
            Some(next) => v = next,
            None => break,
        }
    }
}

#[test]
fn kernel_u64_reads_the_first_slot_for_zero_and_for_the_top_bit() {
    assert_eq!(is_pow10_u64(0), false);
    assert_eq!(is_pow10_u64(10000000000000000000), true);
    assert_eq!(is_pow10_u64(9223372036854775808), false);
    assert_eq!(is_pow10_u64(18446744073709551615), false);
    assert_eq!(is_pow10_u64(1), true);
    assert_eq!(is_pow10_u64(2), false);
    assert_eq!(is_pow10_u64(3), false);
}

#[test]
fn kernel_u128_looks_at_the_whole_number() {
    // the slot is computed from the low 64 bits alone
    let high: u128 = 1 << 64;
    assert_eq!(is_pow10_u128(1), true);
    assert_eq!(is_pow10_u128(high + 1), false);
    assert_eq!(is_pow10_u128(1000), true);
    assert_eq!(is_pow10_u128(high + 1000), false);
    assert_eq!(is_pow10_u128(0), false);
    assert_eq!(is_pow10_u128(high), false);
    assert_eq!(is_pow10_u128(100000000000000000000000000000000000000), true);
    assert_eq!(is_pow10_u128(100000000000000000000000000000000000000 + high), false);
    assert_eq!(is_pow10_u128(u128::MAX), false);
}

#[test]
fn kernel_usize_follows_the_pointer_width() {
    assert_eq!(is_pow10_usize(0), false);
    assert_eq!(is_pow10_usize(1), true);
    assert_eq!(is_pow10_usize(1000000000), true);
    assert_eq!(is_pow10_usize(1000000001), false);
    assert_eq!(is_pow10_usize(usize::MAX), false);
    if usize::BITS == 64 {
        assert_eq!(is_pow10_usize(10000000000000000000u64 as usize), true);
        assert_eq!(is_pow10_usize(10000000000u64 as usize), true);
        assert_eq!(floor_log10_usize(10000000000u64 as usize), 10);
        assert_eq!(floor_log10_usize(usize::MAX), 19);
    } else {
        assert_eq!(floor_log10_usize(usize::MAX), 9);
    }
    assert_eq!(floor_log10_usize(0), 0);
    assert_eq!(floor_log10_usize(99), 1);
    assert_eq!(floor_log10_usize(100), 2);
}

#[test]
fn hash_tables_hold_the_powers_of_ten_and_zeros() {
    let mut found: Vec<u128> = Vec::new();
    for &x in POWER10_HASH_U16.iter() {
        if x != 0 {
            found.push(x as u128);
        }
    }
    found.sort();
    assert_eq!(found, vec![1, 10, 100, 1000, 10000]);

    let mut found: Vec<u128> = Vec::new();
    for &x in POWER10_HASH_U32.iter() {
        if x != 0 {
            found.push(x as u128);
        }
    }
    found.sort();
    let mut expected: Vec<u128> = Vec::new();
    let mut p: u128 = 1;
    for _ in 0..10 {
        expected.push(p);
        p *= 10;
    }
    assert_eq!(found, expected);

    let mut found: Vec<u128> = Vec::new();
    for &x in POWER10_HASH_U128.iter() {
        if x != 0 {
            found.push(x);
        }
    }
    found.sort();
    let mut expected: Vec<u128> = Vec::new();
    let mut p: u128 = 1;
    for _ in 0..38 {
        expected.push(p);
        p *= 10;
    }
    expected.push(p);
    assert_eq!(found, expected);
}

#[test]
fn hash_table_entries_sit_in_their_slots() {
    assert_eq!(POWER10_HASH_U16, [1, 10, 10000, 0, 100, 1000, 0, 0]);
    assert_eq!(POWER10_HASH_U32[0], 10000);
    assert_eq!(POWER10_HASH_U32[1], 1);
    assert_eq!(POWER10_HASH_U32[2], 10000000);
    assert_eq!(POWER10_HASH_U32[11], 1000000000);
    assert_eq!(POWER10_HASH_U32[13], 1000000);
    assert_eq!(POWER10_HASH_U128[0], 100000000000000000000000000000000000);
    assert_eq!(POWER10_HASH_U128[37], 1);
    assert_eq!(POWER10_HASH_U128[52], 10);
    assert_eq!(POWER10_HASH_U128[31], 100000000000000000000000000000000000000);
}

#[test]
fn leading_zero_table_holds_each_power_at_its_count() {
    assert_eq!(POWER10_LZ_U64.len(), 64);
    let mut p: u64 = 1;
    for _ in 0..20 {
        assert_eq!(POWER10_LZ_U64[p.leading_zeros() as usize], p);
        p = p.wrapping_mul(10);
    }
    let filled = POWER10_LZ_U64.iter().filter(|&&x| x != u64::MAX).count();
    assert_eq!(filled, 20);
    assert_eq!(POWER10_LZ_U64[0], 10000000000000000000);
    assert_eq!(POWER10_LZ_U64[1], u64::MAX);
    assert_eq!(POWER10_LZ_U64[63], 1);
}

#[test]
fn logarithm_tables_end_with_the_pair_for_zero() {
    assert_eq!(LOG10_LZ_U8.len(), 9);
    assert_eq!(LOG10_LZ_U16.len(), 17);
    assert_eq!(LOG10_LZ_U32.len(), 33);
    assert_eq!(LOG10_LZ_U64.len(), 65);
    assert_eq!(LOG10_LZ_U128.len(), 129);
    assert_eq!(LOG10_LZ_U8[8], (0, 0));
    assert_eq!(LOG10_LZ_U16[16], (0, 0));
    assert_eq!(LOG10_LZ_U32[32], (0, 0));
    assert_eq!(LOG10_LZ_U64[64], (0, 0));
    assert_eq!(LOG10_LZ_U128[128], (0, 0));
    assert_eq!(LOG10_LZ_U8[0], (2, 100));
    assert_eq!(LOG10_LZ_U8[4], (1, 10));
    assert_eq!(LOG10_LZ_U8[5], (0, 1));
    assert_eq!(LOG10_LZ_U16[0], (4, 10000));
    assert_eq!(LOG10_LZ_U32[0], (9, 1000000000));
    assert_eq!(LOG10_LZ_U64[0], (19, 10000000000000000000));
    assert_eq!(LOG10_LZ_U128[0], (38, 100000000000000000000000000000000000000));
}

#[test]
fn logarithm_table_thresholds_are_ten_to_the_exponent() {
    for &(e, t) in LOG10_LZ_U128[..128].iter() {
        assert_eq!(t, 10u128.pow(e));
    }
    for &(e, t) in LOG10_LZ_U64[..64].iter() {
        assert_eq!(t, 10u64.pow(e));
    }
    for &(e, t) in LOG10_LZ_U32[..32].iter() {
        assert_eq!(t, 10u32.pow(e));
    }
    for &(e, t) in LOG10_LZ_U16[..16].iter() {
        assert_eq!(t, 10u16.pow(e));
    }
    for &(e, t) in LOG10_LZ_U8[..8].iter() {
        assert_eq!(t, 10u8.pow(e));
    }
}

#[test]
fn logarithm_kernels_step_down_below_the_threshold() {
    // 8 to 15 share one pair: 8 and 9 lie under its threshold
    assert_eq!(floor_log10_u8(7), 0);
    assert_eq!(floor_log10_u8(8), 0);
    assert_eq!(floor_log10_u8(9), 0);
    assert_eq!(floor_log10_u8(10), 1);
    assert_eq!(floor_log10_u8(15), 1);
    assert_eq!(floor_log10_u8(64), 1);
    assert_eq!(floor_log10_u8(99), 1);
    assert_eq!(floor_log10_u8(100), 2);
    assert_eq!(floor_log10_u8(127), 2);
    assert_eq!(floor_log10_u8(128), 2);
    assert_eq!(floor_log10_u16(8192), 3);
    assert_eq!(floor_log10_u16(9999), 3);
    assert_eq!(floor_log10_u16(10000), 4);
    assert_eq!(floor_log10_u16(16383), 4);
    assert_eq!(floor_log10_u32(999999999), 8);
    assert_eq!(floor_log10_u32(1000000000), 9);
    assert_eq!(floor_log10_u64(9999999999999999999), 18);
    assert_eq!(floor_log10_u64(10000000000000000000), 19);
    assert_eq!(floor_log10_u128(99999999999999999999999999999999999999), 37);
    assert_eq!(floor_log10_u128(100000000000000000000000000000000000000), 38);
    assert_eq!(floor_log10_u128(18446744073709551615), 19);
    assert_eq!(floor_log10_u128(18446744073709551616), 19);
    assert_eq!(floor_log10_u128(99999999999999999999), 19);
    assert_eq!(floor_log10_u128(100000000000000000000), 20);
}

#[test]
fn leading_zeros_of_u128_in_two_halves() {
    assert_eq!(leading_zeros_u128(0), 128);
    assert_eq!(leading_zeros_u128(1), 127);
    assert_eq!(leading_zeros_u128(u64::MAX as u128), 64);
    assert_eq!(leading_zeros_u128(1 << 64), 63);
    assert_eq!(leading_zeros_u128(u128::MAX), 0);
    let mut x: u128 = 1;
    while x != 0 {
        for v in [x - 1, x, x + 1, x | 1, x | (x >> 1)] {
            assert_eq!(leading_zeros_u128(v), v.leading_zeros(), "{}", v);
        }
        x <<= 1;
    }
}
