use guessing_game::numstr::{digit_count, guess_string_compiler, i32_to_string, u32_to_string};

#[test]
fn unsigned_rendering_is_canonical() {
    assert_eq!(u32_to_string(0), "0");
    assert_eq!(u32_to_string(7), "7");
    assert_eq!(u32_to_string(10), "10");
    assert_eq!(u32_to_string(42), "42");
    assert_eq!(u32_to_string(100), "100");
    assert_eq!(u32_to_string(999999999), "999999999");
    assert_eq!(u32_to_string(1000000000), "1000000000");
    assert_eq!(u32_to_string(u32::MAX), "4294967295");
}

#[test]
fn signed_rendering_carries_the_minus() {
    assert_eq!(i32_to_string(0), "0");
    assert_eq!(i32_to_string(-7), "-7");
    assert_eq!(i32_to_string(42), "42");
    assert_eq!(i32_to_string(-1000000000), "-1000000000");
    assert_eq!(i32_to_string(i32::MIN), "-2147483648");
    assert_eq!(i32_to_string(i32::MAX), "2147483647");
}

#[test]
fn digit_count_matches_rendering() {
    assert_eq!(digit_count(0), 1);
    assert_eq!(digit_count(9), 1);
    assert_eq!(digit_count(10), 2);
    assert_eq!(digit_count(99), 2);
    assert_eq!(digit_count(100), 3);
    assert_eq!(digit_count(999999999), 9);
    assert_eq!(digit_count(1000000000), 10);
    for n in [0u32, 5, 10, 123, 99999, 1000000000] {
        assert_eq!(digit_count(n), u32_to_string(n).len());
    }
}

#[test]
fn sign_prefix_is_prepended() {
    assert_eq!(guess_string_compiler(&"42".to_string(), true), "-42");
    assert_eq!(guess_string_compiler(&"42".to_string(), false), "42");
    assert_eq!(guess_string_compiler(&"0".to_string(), true), "-0");
}
