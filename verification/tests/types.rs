use vera_serve::types::{OneOrMany, string_or_seq};

#[test]
fn bare_string_is_a_list_of_one() {
    assert_eq!(string_or_seq(OneOrMany::One("a".to_string())), vec!["a".to_string()]);
    assert_eq!(
        string_or_seq(OneOrMany::One("a".to_string())),
        string_or_seq(OneOrMany::Many(vec!["a".to_string()]))
    );
}

#[test]
fn list_of_strings_is_kept() {
    assert_eq!(string_or_seq(OneOrMany::Many(Vec::new())), Vec::<String>::new());
    assert_eq!(
        string_or_seq(OneOrMany::Many(vec!["a".to_string(), "b".to_string()])),
        vec!["a".to_string(), "b".to_string()]
    );
}
