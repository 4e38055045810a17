use meili::text::{chars_of, contains, digit_char, found_at, push_decimal, same_text};

fn chars(s: &str) -> Vec<char> {
    s.chars().collect()
}

#[test]
fn chars_of_keeps_every_character() {
    assert_eq!(chars_of("meili"), vec!['m', 'e', 'i', 'l', 'i']);
    assert_eq!(chars_of(""), Vec::<char>::new());
    assert_eq!(chars_of("a\u{e9}\u{4e16}z"), vec!['a', '\u{e9}', '\u{4e16}', 'z']);
}

#[test]
fn contains_finds_a_run_anywhere() {
    assert!(contains(&chars("meili port mapping"), &chars("meili")));
    assert!(contains(&chars("my meili"), &chars("meili")));
    assert!(contains(&chars("xxmeilixx"), &chars("meili")));
    assert!(contains(&chars("meili"), &chars("meili")));
    assert!(!contains(&chars("meil"), &chars("meili")));
    assert!(!contains(&chars("m e i l i"), &chars("meili")));
    assert!(!contains(&chars("Meili"), &chars("meili")));
    assert!(!contains(&chars(""), &chars("meili")));
}

#[test]
fn the_empty_text_is_in_every_text() {
    assert!(contains(&chars("abc"), &chars("")));
    assert!(contains(&chars(""), &chars("")));
}

#[test]
fn found_at_looks_at_one_place_only() {
    let hay = chars("abcabc");
    assert!(found_at(&hay, &chars("abc"), 0));
    assert!(found_at(&hay, &chars("abc"), 3));
    assert!(!found_at(&hay, &chars("abc"), 1));
    assert!(!found_at(&hay, &chars("abc"), 4));
    assert!(!found_at(&hay, &chars("abc"), 100));
    assert!(found_at(&hay, &chars(""), 6));
    assert!(!found_at(&hay, &chars(""), 7));
}

#[test]
fn same_text_compares_character_by_character() {
    assert!(same_text(&chars("192.168.1.20"), &chars("192.168.1.20")));
    assert!(!same_text(&chars("192.168.1.20"), &chars("192.168.1.2")));
    assert!(!same_text(&chars("192.168.1.20"), &chars("192.168.1.21")));
    assert!(!same_text(&chars("192.168.001.020"), &chars("192.168.1.20")));
    assert!(same_text(&chars(""), &chars("")));
}

#[test]
fn decimal_of_a_byte() {
    let mut out = vec!['x'];
    push_decimal(&mut out, 0);
    push_decimal(&mut out, 7);
    push_decimal(&mut out, 42);
    push_decimal(&mut out, 100);
    push_decimal(&mut out, 255);
    let written: String = out.into_iter().collect();
    assert_eq!(written, "x0742100255");
}

#[test]
fn digits_are_the_ten_digits() {
    let all: String = (0..10u8).map(digit_char).collect();
    assert_eq!(all, "0123456789");
    assert_eq!(digit_char(200), '9');
}
