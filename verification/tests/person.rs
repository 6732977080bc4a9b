use mvp::person::Person;
use mvp::text::{decimal_string, join_lines};

fn person(id: u64, name: &str, age: u8, state: &str) -> Person {
    Person { id, name: name.to_string(), age, state: state.to_string() }
}

#[test]
fn format_row_pads_each_column() {
    let p = person(1, "Alice", 30, "CA");
    assert_eq!(p.format_row(), "       1 | Alice            |   30 | CA              ");
}

#[test]
fn format_row_matches_std_formatting() {
    let cases = [
        person(0, "", 0, ""),
        person(123456789, "A name longer than sixteen", 255, "a state longer than sixteen"),
        person(42, "Jürgen Müller", 7, "Bayern"),
    ];
    for p in cases.iter() {
        let expected = format!(
            "{id:>8} | {name:16} | {age:>4} | {state:16}",
            id = p.id,
            name = p.name,
            age = p.age,
            state = p.state
        );
        assert_eq!(p.format_row(), expected);
    }
}

#[test]
fn from_columns_defaults_state() {
    let p = Person::from_columns(3, "Bob".to_string(), 41, None);
    assert_eq!(p.state, "");
    let q = Person::from_columns(3, "Bob".to_string(), 41, Some("NY".to_string()));
    assert_eq!(q.state, "NY");
    assert_eq!(q.id, 3);
    assert_eq!(q.age, 41);
    assert_eq!(q.name, "Bob");
}

#[test]
fn decimal_strings() {
    assert_eq!(decimal_string(0), "0");
    assert_eq!(decimal_string(10), "10");
    assert_eq!(decimal_string(u64::MAX), u64::MAX.to_string());
}

#[test]
fn join_lines_puts_separator_between() {
    assert_eq!(join_lines(&vec![], "\n"), "");
    assert_eq!(join_lines(&vec!["a".to_string()], "\n"), "a");
    assert_eq!(join_lines(&vec!["a".to_string(), "b".to_string(), "c".to_string()], ", "), "a, b, c");
}
