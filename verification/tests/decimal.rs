use timing_probe::decimal::{append_decimal, to_decimal};

#[test]
fn zero_is_a_single_digit() {
    assert_eq!(to_decimal(0), "0");
}

#[test]
fn each_digit_alone() {
    let expected: Vec<&str> = vec!["0", "1", "2", "3", "4", "5", "6", "7", "8", "9"];
    let mut n: u128 = 0;
    for text in expected {
        assert_eq!(to_decimal(n), text);
        n += 1;
    }
}

#[test]
fn several_digits_most_significant_first() {
    assert_eq!(to_decimal(10), "10");
    assert_eq!(to_decimal(99), "99");
    assert_eq!(to_decimal(100), "100");
    assert_eq!(to_decimal(5000), "5000");
    assert_eq!(to_decimal(1234567890), "1234567890");
}

#[test]
fn largest_value() {
    assert_eq!(
        to_decimal(u128::MAX),
        "340282366920938463463374607431768211455"
    );
}

#[test]
fn agrees_with_the_standard_notation() {
    let samples: Vec<u128> = vec![
        0,
        7,
        10,
        101,
        65535,
        4294967296,
        18446744073709551615,
        18446744073709551616,
        u128::MAX - 1,
        u128::MAX,
    ];
    for n in samples {
        assert_eq!(to_decimal(n), n.to_string());
    }
}

#[test]
fn reading_the_notation_gives_the_number_back() {
    let samples: Vec<u128> = vec![0, 9, 10, 909, 1000, 5001, u128::MAX];
    for n in samples {
        let read: u128 = to_decimal(n).parse().unwrap();
        assert_eq!(read, n);
    }
}

#[test]
fn append_keeps_what_stands_before() {
    let mut out: String = "took ".to_string();
    append_decimal(&mut out, 42);
    assert_eq!(out, "took 42");
    append_decimal(&mut out, 0);
    assert_eq!(out, "took 420");
}
