use contribution_digest::slack::comma_separate_list;
use contribution_digest::slack::dec_int;
use contribution_digest::slack::link;

#[test]
fn test_comma_separate_list() {
    assert_eq!(comma_separate_list(vec!["foo".to_owned()]), "foo");
    assert_eq!(
        comma_separate_list(vec!["foo".to_owned(), "bar".to_owned()]),
        "foo and bar"
    );
    assert_eq!(
        comma_separate_list(vec!["foo".to_owned(), "bar".to_owned(), "baz".to_owned()]),
        "foo, bar and baz"
    );
}

#[test]
fn empty_list_formats_to_empty_string() {
    assert_eq!(comma_separate_list(vec![]), "");
}

#[test]
fn four_items_have_two_commas_and_one_and() {
    let s = comma_separate_list(vec![
        "a".to_owned(),
        "b".to_owned(),
        "c".to_owned(),
        "d".to_owned(),
    ]);
    assert_eq!(s, "a, b, c and d");
    assert_eq!(s.matches(',').count(), 2);
    assert_eq!(s.matches(" and ").count(), 1);
}

#[test]
fn link_embeds_url_and_text() {
    assert_eq!(link("https://x/Foo", "Foo"), "<https://x/Foo|Foo>");
}

#[test]
fn decimal_rendering() {
    assert_eq!(dec_int(0), "0");
    assert_eq!(dec_int(5), "5");
    assert_eq!(dec_int(12345), "12345");
    assert_eq!(dec_int(-7), "-7");
    assert_eq!(dec_int(i64::MAX), "9223372036854775807");
    assert_eq!(dec_int(i64::MIN), "-9223372036854775808");
}
