use carrion_eris::ui::cli::Prompt;

fn prompt(text: &str, cursor: usize) -> Prompt {
    Prompt { buffer: text.chars().collect(), cursor }
}

fn text(p: &Prompt) -> String {
    p.buffer.iter().collect()
}

#[test]
fn insert_at_cursor() {
    let mut p = prompt("helo", 3);
    p.insert('l');
    assert_eq!(text(&p), "hello");
    assert_eq!(p.cursor, 4);
}

#[test]
fn insert_past_end_appends() {
    let mut p = prompt("ab", 10);
    p.insert('c');
    assert_eq!(text(&p), "abc");
    assert_eq!(p.cursor, 3);
}

#[test]
fn insert_str_inserts_in_order() {
    let mut p = prompt("ad", 1);
    p.insert_str("bc");
    assert_eq!(text(&p), "abcd");
    assert_eq!(p.cursor, 3);
}

#[test]
fn insert_empty_str_changes_nothing() {
    let mut p = prompt("ab", 7);
    p.insert_str("");
    assert_eq!(text(&p), "ab");
    assert_eq!(p.cursor, 7);
}

#[test]
fn char_moves_stop_at_the_ends() {
    let mut p = prompt("ab", 0);
    p.left_char();
    assert_eq!(p.cursor, 0);
    p.right_char();
    p.right_char();
    p.right_char();
    assert_eq!(p.cursor, 2);
    p.left_char();
    assert_eq!(p.cursor, 1);
}

#[test]
fn at_cursor_past_end_is_newline() {
    let p = prompt("ab", 2);
    assert_eq!(p.at_cursor(), '\n');
    let p = prompt("ab", 1);
    assert_eq!(p.at_cursor(), 'b');
}

#[test]
fn word_moves() {
    let mut p = prompt("one two  three", 14);
    p.left_word();
    assert_eq!(p.cursor, 8);
    p.left_word();
    assert_eq!(p.cursor, 3);
    p.left_word();
    assert_eq!(p.cursor, 0);
    p.right_word();
    assert_eq!(p.cursor, 3);
    p.right_word();
    assert_eq!(p.cursor, 7);
    p.right_word();
    assert_eq!(p.cursor, 14);
}

#[test]
fn backspace_removes_before_cursor() {
    let mut p = prompt("abc", 2);
    p.backspace();
    assert_eq!(text(&p), "ac");
    assert_eq!(p.cursor, 1);
    let mut p = prompt("abc", 0);
    p.backspace();
    assert_eq!(text(&p), "abc");
}

#[test]
fn halves_around_cursor() {
    let p = prompt("abcd", 1);
    assert_eq!(p.before_cursor(), &['a']);
    assert_eq!(p.after_cursor(), &['b', 'c', 'd']);
}

#[test]
fn clear_empties() {
    let mut p = prompt("abcd", 3);
    p.clear();
    assert!(p.buffer.is_empty());
    assert_eq!(p.cursor, 0);
}
