use thermalnote::note::note_file_name;

#[test]
fn name_is_the_prefix_and_the_milliseconds() {
    assert_eq!(note_file_name(1700000000000), "thermalnote_1700000000000");
    assert_eq!(note_file_name(1234), "thermalnote_1234");
}

#[test]
fn small_numbers_are_written_without_padding() {
    assert_eq!(note_file_name(0), "thermalnote_0");
    assert_eq!(note_file_name(7), "thermalnote_7");
    assert_eq!(note_file_name(9), "thermalnote_9");
    assert_eq!(note_file_name(10), "thermalnote_10");
    assert_eq!(note_file_name(99), "thermalnote_99");
    assert_eq!(note_file_name(100), "thermalnote_100");
    assert_eq!(note_file_name(1001), "thermalnote_1001");
}

#[test]
fn the_largest_number_is_written_in_full() {
    assert_eq!(
        note_file_name(u128::MAX),
        "thermalnote_340282366920938463463374607431768211455"
    );
    assert_eq!(note_file_name(u64::MAX as u128), "thermalnote_18446744073709551615");
}

#[test]
fn name_agrees_with_the_standard_formatting() {
    let mut n: u128 = 1;
    for _ in 0..128 {
        assert_eq!(note_file_name(n), format!("thermalnote_{}", n));
        assert_eq!(note_file_name(n - 1), format!("thermalnote_{}", n - 1));
        n = n.wrapping_mul(2).wrapping_add(n % 7);
    }
    let mut p: u128 = 1;
    for _ in 0..38 {
        assert_eq!(note_file_name(p), format!("thermalnote_{}", p));
        assert_eq!(note_file_name(p - 1), format!("thermalnote_{}", p - 1));
        p *= 10;
    }
}

#[test]
fn different_moments_give_different_names() {
    assert_ne!(note_file_name(1700000000000), note_file_name(1700000000001));
    assert_ne!(note_file_name(1), note_file_name(10));
}
