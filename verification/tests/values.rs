use lang_basics::values::{index_lines, Triple};

#[test]
fn positional_matches_destructured() {
    let by_pos = Triple(500i32, 6.4f64, 1u8).by_position();
    let by_destr = Triple(500i32, 6.4f64, 1u8).by_destructuring();
    assert_eq!(by_pos, by_destr);
    assert_eq!(by_pos, (500i32, 6.4f64, 1u8));
}

#[test]
fn positional_access_order() {
    let (a, b, c) = Triple(500i32, 6.4f64, 1u8).by_position();
    assert_eq!(a, 500);
    assert_eq!(b, 6.4);
    assert_eq!(c, 1);
}

#[test]
fn destructuring_with_text() {
    let t = Triple(String::from("Hello World"), 10i32, true);
    let (a, b, c) = t.by_destructuring();
    assert_eq!(a, "Hello World");
    assert_eq!(b, 10);
    assert!(c);
}

#[test]
fn index_lines_fruit() {
    let arr = vec![
        String::from("Orange"),
        String::from("Apples"),
        String::from("Mango"),
    ];
    let lines = index_lines(&arr);
    assert_eq!(lines.len(), 3);
    assert_eq!(lines[0], "Orange");
    assert_eq!(lines[1], "Apples");
    assert_eq!(lines[2], "Mango");
}

#[test]
fn index_lines_empty() {
    let arr: Vec<String> = Vec::new();
    let lines = index_lines(&arr);
    assert!(lines.is_empty());
}

#[test]
fn index_lines_keeps_duplicates_in_order() {
    let arr = vec![
        String::from("Mango"),
        String::from("Mango"),
        String::from("Orange"),
    ];
    let lines = index_lines(&arr);
    assert_eq!(lines, arr);
}
