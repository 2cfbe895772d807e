use soundboard::text::{decimal_text, headed};

#[test]
fn decimal_of_small_numbers() {
    assert_eq!(decimal_text(0), "0");
    assert_eq!(decimal_text(7), "7");
    assert_eq!(decimal_text(9), "9");
    assert_eq!(decimal_text(10), "10");
    assert_eq!(decimal_text(120), "120");
    assert_eq!(decimal_text(1005), "1005");
}

#[test]
fn decimal_of_negative_numbers() {
    assert_eq!(decimal_text(-1), "-1");
    assert_eq!(decimal_text(-10), "-10");
    assert_eq!(decimal_text(-987654), "-987654");
}

#[test]
fn decimal_of_the_extremes() {
    assert_eq!(decimal_text(i32::MAX), "2147483647");
    assert_eq!(decimal_text(i32::MIN), "-2147483648");
}

#[test]
fn decimal_agrees_with_the_standard_rendering() {
    let mut value: i32 = -50_000;
    while value < 50_000 {
        assert_eq!(decimal_text(value), value.to_string());
        value += 37;
    }
}

#[test]
fn headed_puts_the_detail_behind_the_heading() {
    assert_eq!(headed("Task failed: ", "cancelled"), "Task failed: cancelled");
    assert_eq!(headed("", ""), "");
    assert_eq!(headed("é: ", "🎺"), "é: 🎺");
}
