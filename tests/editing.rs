use creamhack::input::Input;

fn input(text: &str, cursor: usize) -> Input {
    Input { input: text.to_string(), character_index: cursor }
}

#[test]
fn insert_then_delete_multibyte() {
    let mut i = input("abc", 1);
    i.enter_char('é');
    assert_eq!(i.input, "aébc");
    assert_eq!(i.get_character_index(), 2);
    assert_eq!(i.byte_index(), 3);
    i.delete_char();
    assert_eq!(i.input, "abc");
    assert_eq!(i.get_character_index(), 1);
}

#[test]
fn insert_then_delete_wide_char() {
    let mut i = input("가나", 2);
    i.enter_char('🦀');
    assert_eq!(i.input, "가나🦀");
    assert_eq!(i.byte_index(), 10);
    i.delete_char();
    assert_eq!(i.input, "가나");
    assert_eq!(i.get_character_index(), 2);
}

#[test]
fn cursor_is_clamped() {
    let mut i = input("ab", 0);
    i.move_cursor_left();
    assert_eq!(i.get_character_index(), 0);
    i.move_cursor_right();
    i.move_cursor_right();
    i.move_cursor_right();
    assert_eq!(i.get_character_index(), 2);
    assert_eq!(i.clamp_cursor(9), 2);
    let mut j = input("ab", 7);
    j.enter_char('c');
    assert_eq!(j.input, "abc");
    assert_eq!(j.get_character_index(), 3);
}

#[test]
fn delete_at_start_does_nothing() {
    let mut i = input("ab", 0);
    i.delete_char();
    assert_eq!(i.input, "ab");
    assert_eq!(i.get_character_index(), 0);
}

#[test]
fn reset_clears() {
    let mut i = input("abc", 2);
    i.reset_cursor();
    assert_eq!(i.input, "");
    assert_eq!(i.get_character_index(), 0);
    assert_eq!(i.byte_index(), 0);
}
