use rusoto::text::{chars_of, lex_less, remove_char, replace_char};

#[test]
fn remove_char_drops_every_occurrence() {
    assert_eq!(remove_char("\"ab\"c\"", '"'), "abc");
    assert_eq!(remove_char("abc", '"'), "abc");
    assert_eq!(remove_char("", '"'), "");
    assert_eq!(remove_char("\"\"\"", '"'), "");
}

#[test]
fn remove_char_twice_is_once() {
    let once = remove_char("\"x\"y", '"');
    assert_eq!(remove_char(&once, '"'), once);
}

#[test]
fn replace_char_keeps_other_characters() {
    assert_eq!(replace_char("a-é-c", '-', '_'), "a_é_c");
}

#[test]
fn chars_of_lists_characters() {
    assert_eq!(chars_of("aé"), vec!['a', 'é']);
}

#[test]
fn lex_less_orders_like_strings() {
    let cases = ["", "a", "ab", "b", "ba", "é", "2016-01-14", "2016-01-15"];
    for x in cases.iter() {
        for y in cases.iter() {
            assert_eq!(lex_less(&chars_of(x), &chars_of(y)), x < y, "{} {}", x, y);
        }
    }
}
