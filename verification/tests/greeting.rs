use greeting::greeting;
use greeting::greeting_line;

#[test]
fn it_works() {
    let result: i32 = 2 + 2;
    assert_eq!(result, 4);
}

#[test]
fn greeting_is_the_literal() {
    assert_eq!(greeting(), "Hello World");
}

#[test]
fn greeting_line_is_the_literal_plus_newline() {
    assert_eq!(greeting_line(), "Hello World\n");
}

#[test]
fn greeting_is_idempotent() {
    let first = greeting();
    let second = greeting();
    assert_eq!(first, second);
    let first_line = greeting_line();
    let second_line = greeting_line();
    assert_eq!(first_line, second_line);
}

#[test]
fn greeting_line_is_exactly_one_line() {
    let line = greeting_line();
    assert!(line.ends_with('\n'));
    assert_eq!(line.matches('\n').count(), 1);
    assert!(!greeting().contains('\n'));
}
