use openapi_struct_gen::options::contains_text;
use openapi_struct_gen::text::chars_of;
use openapi_struct_gen::text::name_less;
use openapi_struct_gen::text::piece;
use openapi_struct_gen::text::split_on;
use openapi_struct_gen::text::str_equal;

#[test]
fn split_keeps_empty_segments() {
    assert_eq!(split_on("a/b/c", '/'), vec!["a", "b", "c"]);
    assert_eq!(split_on("", '/'), vec![""]);
    assert_eq!(split_on("/", '/'), vec!["", ""]);
    assert_eq!(split_on("/pets/{id}", '/'), vec!["", "pets", "{id}"]);
    assert_eq!(split_on("a//b/", '/'), vec!["a", "", "b", ""]);
    assert_eq!(split_on("no separator", '/'), vec!["no separator"]);
}

#[test]
fn split_agrees_with_str_split() {
    for s in ["#/components/schemas/Pet", "application/json", "γ/δ/é", "//", "x"] {
        let expected: Vec<String> = s.split('/').map(|p| p.to_string()).collect();
        assert_eq!(split_on(s, '/'), expected);
    }
}

#[test]
fn piece_counts_characters() {
    assert_eq!(piece("héllo", 1, 3), "él");
    assert_eq!(piece("abc", 0, 0), "");
    assert_eq!(piece("abc", 0, 3), "abc");
}

#[test]
fn chars_of_gives_every_character() {
    assert_eq!(chars_of("aé/"), vec!['a', 'é', '/']);
    assert_eq!(chars_of(""), Vec::<char>::new());
}

#[test]
fn equality_is_by_text() {
    assert!(str_equal("abc", "abc"));
    assert!(str_equal("", ""));
    assert!(!str_equal("abc", "abd"));
    assert!(!str_equal("abc", "ab"));
    assert!(!str_equal("ab", "abc"));
}

#[test]
fn name_order_is_the_order_of_str() {
    let names = ["", "A", "B", "Pet", "PetList", "Pets", "a", "ab", "b", "é", "/pets", "Z"];
    for a in names {
        for b in names {
            assert_eq!(name_less(a, b), a < b, "{:?} < {:?}", a, b);
        }
    }
}

#[test]
fn contains_text_finds_only_whole_texts() {
    let v = vec!["Foo".to_string(), "Bar".to_string()];
    assert!(contains_text(&v, "Foo"));
    assert!(contains_text(&v, "Bar"));
    assert!(!contains_text(&v, "Fo"));
    assert!(!contains_text(&v, "foo"));
    assert!(!contains_text(&Vec::new(), "Foo"));
}
