use ix_rs::Ix;

fn collect_range<T: Ix>(min: T, max: T) -> Vec<T> {
    let mut it = T::range(min, max);
    let mut out = Vec::new();
    while let Some(v) = it.next() {
        out.push(v);
    }
    out
}

#[test]
fn membership_scenario_i32() {
    assert!(20i32.in_range(17, 5432));
    assert!(!16i32.in_range(17, 5432));
    assert!(!5433i32.in_range(17, 5432));
}

#[test]
fn membership_agrees_with_enumeration_i32() {
    let produced = collect_range(17i32, 5432);
    assert_eq!(produced.contains(&20), 20i32.in_range(17, 5432));
    assert_eq!(produced.contains(&16), 16i32.in_range(17, 5432));
    assert_eq!(produced.contains(&5432), 5432i32.in_range(17, 5432));
}

#[test]
fn membership_excludes_value_above_max_u8() {
    assert!(!255u8.in_range(0, 254));
    assert!(254u8.in_range(0, 254));
    assert!(!collect_range(0u8, 254).contains(&255));
}

#[test]
fn membership_agrees_with_enumeration_i16() {
    assert!(!(-30289i16).in_range(-746, 15564));
    assert!(!collect_range(-746i16, 15564).contains(&-30289));
}

#[test]
fn position_scenario_i32() {
    assert_eq!(20i32.index(17, 5432), 3);
    assert_eq!(20i32.index_checked(17, 5432), Some(3));
}

#[test]
fn position_roundtrip_i32() {
    let produced = collect_range(17i32, 5432);
    assert_eq!(produced[20i32.index(17, 5432)], 20);
    assert_eq!(produced[17i32.index(17, 5432)], 17);
    assert_eq!(produced[5432i32.index(17, 5432)], 5432);
}

#[test]
fn position_roundtrip_i16() {
    let produced = collect_range(-31597i16, 16417);
    assert_eq!(produced[0i16.index(-31597, 16417)], 0);
}

#[test]
fn first_position_i128() {
    assert_eq!((-45i128).index(-45, 483), 0);
    for (k, v) in collect_range(-45i128, 483).iter().enumerate() {
        assert_eq!(v.index(-45, 483), k);
    }
}

#[test]
fn bijective_enumeration_i32() {
    let positions: Vec<usize> = collect_range(-633i32, 151)
        .iter()
        .map(|v| v.index(-633, 151))
        .collect();
    let expected: Vec<usize> = (0..i32::range_size(-633, 151)).collect();
    assert_eq!(positions, expected);
}

#[test]
fn bijective_enumeration_checked_u16() {
    let positions: Vec<Option<usize>> = collect_range(7u16, 19)
        .iter()
        .map(|v| v.index_checked(7, 19))
        .collect();
    let expected: Vec<Option<usize>> = (0..13).map(Some).collect();
    assert_eq!(positions, expected);
}

#[test]
fn size_count_agreement_u32() {
    assert_eq!(u32::range_size(8079, 1836091), 1828013);
    assert_eq!(collect_range(8079u32, 1836091).len(), 1828013);
}

#[test]
fn size_count_agreement_small() {
    assert_eq!(i8::range_size(-3, 3), collect_range(-3i8, 3).len());
    assert_eq!(u64::range_size(10, 10), collect_range(10u64, 10).len());
}

#[test]
fn checked_and_unchecked_agree() {
    assert_eq!(
        i64::range_size_checked(-5, 100),
        Some(i64::range_size(-5, 100))
    );
    assert_eq!(77u8.index_checked(3, 200), Some(77u8.index(3, 200)));
}

#[test]
fn boundary_inclusion() {
    let produced = collect_range(-7i8, 9);
    assert_eq!(produced.first(), Some(&-7));
    assert_eq!(produced.last(), Some(&9));
    let single = collect_range(42u64, 42);
    assert_eq!(single, vec![42u64]);
}

#[test]
fn full_width_u8() {
    let produced = collect_range(0u8, 255);
    assert_eq!(produced.len(), 256);
    assert_eq!(produced.first(), Some(&0));
    assert_eq!(produced.last(), Some(&255));
    assert_eq!(u8::range_size_checked(0, 255), Some(256));
    assert_eq!(u8::range_size(0, 255), 256);
}

#[test]
fn overflow_consistency_u64() {
    assert_eq!(u64::range_size_checked(0, u64::MAX), None);
    assert_eq!(u64::range_size_checked(1, u64::MAX), Some(usize::MAX));
    assert_eq!(u64::MAX.index_checked(0, u64::MAX), Some(usize::MAX));
}

#[test]
fn overflow_consistency_usize() {
    assert_eq!(usize::range_size_checked(0, usize::MAX), None);
    assert_eq!(usize::range_size_checked(1, usize::MAX), Some(usize::MAX));
    assert_eq!(usize::MAX.index_checked(0, usize::MAX), Some(usize::MAX));
}

#[test]
fn overflow_consistency_u128() {
    assert_eq!(u128::range_size_checked(0, u128::MAX), None);
    assert_eq!(u128::range_size_checked(0, usize::MAX as u128), None);
    assert_eq!(
        u128::range_size_checked(1, usize::MAX as u128),
        Some(usize::MAX)
    );
    let beyond: u128 = usize::MAX as u128 + 1;
    assert_eq!(beyond.index_checked(0, u128::MAX), None);
    assert_eq!((usize::MAX as u128).index_checked(0, u128::MAX), Some(usize::MAX));
}

#[test]
fn overflow_consistency_i128() {
    assert_eq!(i128::range_size_checked(i128::MIN, i128::MAX), None);
    assert_eq!(i128::MAX.index_checked(i128::MIN, i128::MAX), None);
    assert_eq!(
        (i128::MIN + usize::MAX as i128).index_checked(i128::MIN, i128::MAX),
        Some(usize::MAX)
    );
    assert_eq!(i128::range_size_checked(-5, 5), Some(11));
}

#[test]
fn overflow_consistency_i64() {
    assert_eq!(i64::range_size_checked(i64::MIN, i64::MAX), None);
    assert_eq!(i64::range_size_checked(i64::MIN + 1, i64::MAX), Some(usize::MAX));
}

#[test]
fn enumeration_is_restartable() {
    let first = collect_range(-2i16, 12);
    let second = collect_range(-2i16, 12);
    assert_eq!(first, second);
    let mut a = i16::range(-2, 12);
    let mut b = i16::range(-2, 12);
    assert_eq!(a.next(), Some(-2));
    assert_eq!(a.next(), Some(-1));
    assert_eq!(b.next(), Some(-2));
    assert_eq!(a.next(), Some(0));
}

#[test]
fn enumeration_ends() {
    let mut it = u8::range(254, 255);
    assert_eq!(it.next(), Some(254));
    assert_eq!(it.next(), Some(255));
    assert_eq!(it.next(), None);
    assert_eq!(it.next(), None);
}
