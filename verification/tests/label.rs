use overlay::label::{line_text, push_decimal};

fn decimal_of(n: usize) -> String {
    let mut text = String::new();
    push_decimal(&mut text, n);
    text
}

#[test]
fn decimal_of_single_digits() {
    assert_eq!(decimal_of(0), "0");
    assert_eq!(decimal_of(7), "7");
    assert_eq!(decimal_of(9), "9");
}

#[test]
fn decimal_of_several_digits() {
    assert_eq!(decimal_of(10), "10");
    assert_eq!(decimal_of(99), "99");
    assert_eq!(decimal_of(100), "100");
    assert_eq!(decimal_of(1234567890), "1234567890");
}

#[test]
fn decimal_of_the_largest_number() {
    assert_eq!(decimal_of(usize::MAX), format!("{}", usize::MAX));
}

#[test]
fn decimal_is_appended_to_what_is_there() {
    let mut text = String::from("tab ");
    push_decimal(&mut text, 42);
    assert_eq!(text, "tab 42");
}

#[test]
fn decimal_agrees_with_std_on_a_range() {
    let mut n: usize = 0;
    while n < 2000 {
        assert_eq!(decimal_of(n), format!("{}", n));
        n += 1;
    }
}

#[test]
fn line_counts_from_one() {
    assert_eq!(line_text(0, &String::from("shell")), "1. shell\r\n");
    assert_eq!(line_text(1, &String::from("vim")), "2. vim\r\n");
}

#[test]
fn line_of_the_tenth_entry_has_two_digits() {
    assert_eq!(line_text(9, &String::from("x")), "10. x\r\n");
}

#[test]
fn line_of_an_empty_title() {
    assert_eq!(line_text(2, &String::new()), "3. \r\n");
}

#[test]
fn line_keeps_the_title_as_it_is() {
    let title = String::from("~/src — build: 100%");
    assert_eq!(line_text(4, &title), format!("{}. {}\r\n", 5, title));
}
