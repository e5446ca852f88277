use ledger::decimal::decimal_string;

#[test]
fn decimal_writing() {
    assert_eq!(decimal_string(0), "0");
    assert_eq!(decimal_string(7), "7");
    assert_eq!(decimal_string(9), "9");
    assert_eq!(decimal_string(10), "10");
    assert_eq!(decimal_string(990), "990");
    assert_eq!(decimal_string(1000), "1000");
    assert_eq!(decimal_string(1234567890), "1234567890");
    assert_eq!(decimal_string(2147483647), "2147483647");
    assert_eq!(decimal_string(u32::MAX), "4294967295");
}

#[test]
fn decimal_writing_agrees_with_std() {
    let mut n: u32 = 0;
    while n < 5000 {
        assert_eq!(decimal_string(n), format!("{}", n));
        n += 1;
    }
    let mut power: u32 = 1;
    while power <= 1_000_000_000 {
        assert_eq!(decimal_string(power), format!("{}", power));
        assert_eq!(decimal_string(power - 1), format!("{}", power - 1));
        if power == 1_000_000_000 {
            break;
        }
        power *= 10;
    }
}
