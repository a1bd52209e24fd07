use green_threads::allocator::{AllocError, PageSize};

fn page(bytes: i64) -> PageSize {
    PageSize::get(bytes, 0).unwrap()
}

#[test]
fn page_size_of_4096_is_accepted() {
    assert_eq!(page(4096).size(), 4096);
}

#[test]
fn every_power_of_two_below_two_to_the_32_is_accepted() {
    let mut exponent: u32 = 0;
    while exponent < 32 {
        let bytes: i64 = 1i64 << exponent;
        assert_eq!(page(bytes).size() as i64, bytes);
        exponent += 1;
    }
}

#[test]
fn failed_query_carries_the_error_code() {
    assert!(matches!(PageSize::get(-1, 22), Err(AllocError::Os(22))));
    assert!(matches!(PageSize::get(-1, 0), Err(AllocError::Os(0))));
}

#[test]
fn error_code_is_ignored_when_the_query_succeeded() {
    assert_eq!(PageSize::get(16384, 22).unwrap().size(), 16384);
}

#[test]
fn sizes_that_are_no_power_of_two_are_refused() {
    for report in [0i64, 3, 4095, 4097, 6144, 12288, -2, -4096, i64::MIN, i64::MAX] {
        assert!(matches!(PageSize::get(report, 0), Err(AllocError::PageSize)));
    }
}

#[test]
fn powers_of_two_beyond_32_bits_are_refused() {
    assert!(matches!(PageSize::get(1i64 << 32, 0), Err(AllocError::PageSize)));
    assert!(matches!(PageSize::get(1i64 << 40, 0), Err(AllocError::PageSize)));
    assert!(matches!(PageSize::get((1i64 << 32) + 4096, 0), Err(AllocError::PageSize)));
}

#[test]
fn refusing_a_page_size_is_fatal_and_a_failed_query_is_not() {
    assert!(AllocError::PageSize.is_fatal());
    assert!(AllocError::NullMapping.is_fatal());
    assert!(AllocError::GuardFailed.is_fatal());
    assert!(AllocError::GuardNull.is_fatal());
    assert!(AllocError::GuardMoved.is_fatal());
    assert!(AllocError::BadAddress.is_fatal());
    assert!(!AllocError::Os(12).is_fatal());
    assert!(!AllocError::OutOfMemory.is_fatal());
}

#[test]
fn round_gives_the_smallest_multiple_that_holds_the_size() {
    let p = page(4096);
    assert_eq!(p.round(1), 4096);
    assert_eq!(p.round(4095), 4096);
    assert_eq!(p.round(4096), 4096);
    assert_eq!(p.round(4097), 8192);
    assert_eq!(p.round(8192), 8192);
    assert_eq!(p.round(10000), 12288);
    assert_eq!(p.round(1 << 30), 1 << 30);
    assert_eq!(p.round((1 << 30) + 1), (1 << 30) + 4096);
}

#[test]
fn round_of_zero_is_one_page() {
    assert_eq!(page(4096).round(0), 4096);
    assert_eq!(page(16384).round(0), 16384);
    assert_eq!(page(1).round(0), 1);
}

#[test]
fn round_with_a_page_of_one_byte_keeps_the_size() {
    let p = page(1);
    assert_eq!(p.round(1), 1);
    assert_eq!(p.round(12345), 12345);
    assert_eq!(p.round(usize::MAX), usize::MAX);
}

#[test]
fn round_is_aligned_least_and_sufficient_for_many_sizes() {
    for bytes in [1i64, 2, 64, 4096, 65536] {
        let p = page(bytes);
        let step = p.size();
        for size in 1usize..=3 * 4096 + 7 {
            let rounded = p.round(size);
            assert_eq!(rounded % step, 0);
            assert!(rounded >= size);
            assert!(rounded - size < step);
        }
    }
}

#[test]
fn checked_round_agrees_with_round_where_the_result_fits() {
    let p = page(4096);
    for size in [0usize, 1, 4095, 4096, 4097, 1 << 20, usize::MAX - 4095] {
        assert_eq!(p.checked_round(size), Some(p.round(size)));
    }
}

#[test]
fn checked_round_reaches_the_last_page_boundary() {
    let p = page(4096);
    let last = usize::MAX - 4095;
    assert_eq!(p.checked_round(last), Some(last));
    assert_eq!(p.checked_round(last - 1), Some(last));
}

#[test]
fn checked_round_is_none_past_the_last_page_boundary() {
    let p = page(4096);
    let last = usize::MAX - 4095;
    assert_eq!(p.checked_round(last + 1), None);
    assert_eq!(p.checked_round(usize::MAX), None);
}
