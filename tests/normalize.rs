use sql_methods::normalize::camel_case_to_snake_case;

#[test]
fn normalize_two_words() {
    assert_eq!(camel_case_to_snake_case("UserAccount"), "user_account");
}

#[test]
fn normalize_acronym_is_not_merged() {
    assert_eq!(camel_case_to_snake_case("ID"), "i_d");
}

#[test]
fn normalize_lowercase_passes_through() {
    assert_eq!(camel_case_to_snake_case("user"), "user");
}

#[test]
fn normalize_single_leading_capital() {
    assert_eq!(camel_case_to_snake_case("A"), "a");
    assert_eq!(camel_case_to_snake_case("User"), "user");
}

#[test]
fn normalize_digits_and_underscores_pass_through() {
    assert_eq!(camel_case_to_snake_case("Order2Item"), "order2_item");
    assert_eq!(camel_case_to_snake_case("user_account"), "user_account");
    assert_eq!(camel_case_to_snake_case("v2_Table"), "v2__table");
}

#[test]
fn normalize_non_ascii_letters_unchanged() {
    assert_eq!(camel_case_to_snake_case("ÄrgerÖl"), "ÄrgerÖl");
    assert_eq!(camel_case_to_snake_case("ÉtatBase"), "État_base");
}

#[test]
fn normalize_empty() {
    assert_eq!(camel_case_to_snake_case(""), "");
}

#[test]
fn normalize_is_idempotent() {
    for s in ["UserAccount", "ID", "user", "HTTPServer2", "A1B2C3", "x"] {
        let once = camel_case_to_snake_case(s);
        let twice = camel_case_to_snake_case(&once);
        assert_eq!(once, twice, "input {s}");
    }
}
