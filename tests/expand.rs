use sql_methods::expand::{
    expand, generate_sql_methods, generate_sql_methods_with_required_key, ExpandError, KeyMode,
    TypePath, TypeRef, MAX_TOKENS,
};
use sql_methods::expand::count_token_starts;
use sql_methods::names::{derive_names, names_from_stem};
use sql_methods::render::{render_accessors, render_accessors_from_stem};

fn path(text: &str) -> TypeRef {
    TypeRef {
        text: text.to_string(),
        path: Some(TypePath {
            segments: text.split("::").map(|s| s.to_string()).collect(),
            text: text.to_string(),
        }),
    }
}

fn other(text: &str) -> TypeRef {
    TypeRef { text: text.to_string(), path: None }
}

const FUNCTION_NAMES: [&str; 10] = [
    "get_user_account",
    "get_user_account_with_conn",
    "insert_user_account",
    "insert_user_account_with_conn",
    "update_user_account",
    "update_user_account_with_conn",
    "patch_user_account",
    "patch_user_account_with_conn",
    "delete_user_account",
    "delete_user_account_with_conn",
];

#[test]
fn names_of_user_account() {
    let n = derive_names("UserAccount");
    assert_eq!(n.stem, "user_account");
    let got = [
        &n.get,
        &n.get_with_conn,
        &n.insert,
        &n.insert_with_conn,
        &n.update,
        &n.update_with_conn,
        &n.patch,
        &n.patch_with_conn,
        &n.delete,
        &n.delete_with_conn,
    ];
    for (g, want) in got.iter().zip(FUNCTION_NAMES.iter()) {
        assert_eq!(g.as_str(), *want);
    }
    assert_eq!(n.insertable, "InsertableUserAccount");
    assert_eq!(n.updatable, "UpdatableUserAccount");
}

#[test]
fn expansion_defines_every_accessor() {
    let code = generate_sql_methods("UserAccount, accounts, Uuid").unwrap();
    for name in FUNCTION_NAMES {
        assert!(code.contains(&format!("pub fn {name}(")), "missing {name}");
    }
    assert_eq!(code.matches("pub fn ").count(), 10);
    assert!(code.contains("new_struct: &InsertableUserAccount"));
    assert!(code.contains("updated_struct: &InsertableUserAccount"));
    assert!(code.contains("updated_struct: &UpdatableUserAccount"));
    assert!(code.contains("accounts::table"));
    assert!(code.contains("use accounts::dsl::*;"));
    assert!(code.contains("stringify!(UserAccount)"));
}

#[test]
fn expansion_first_function_exact() {
    let code = render_accessors("User", "users", "i32");
    let expected = "pub fn get_user(struct_id: &i32, pool: &PgPool) -> Result<User, SqlError> {\n    use diesel::prelude::*;\n\n    let mut conn = get_connection!(pool);\n    get_user_with_conn(struct_id, &mut conn)\n}\n\npub fn get_user_with_conn(struct_id: &i32, conn: &mut PgPooledConnection) -> Result<User, SqlError> {\n    use diesel::prelude::*;\n\n    let result = users::table\n        .find(struct_id)\n        .first(conn)\n        .map_err(|e| {\n            log::error!(\"Failed to get {} with ID {struct_id} (error: {e})\", stringify!(User));\n            SqlError::DieselError(e)\n        })?;\n    Ok(result)\n}\n\npub fn insert_user(";
    assert!(code.starts_with(expected), "got:\n{code}");
    assert!(code.ends_with("    Ok(())\n}\n\n"));
    assert!(code.contains("pub fn delete_user(struct_id: &i32, pool: &PgPool) -> Result<(), SqlError> {"));
}

#[test]
fn default_key_changes_only_the_key() {
    let defaulted = generate_sql_methods("UserAccount, accounts").unwrap();
    let explicit = generate_sql_methods_with_required_key("UserAccount, accounts, Uuid").unwrap();
    assert_eq!(defaulted, explicit);
    let other_key = generate_sql_methods("UserAccount, accounts, i64").unwrap();
    assert_eq!(other_key.replace("&i64", "&Uuid"), explicit);
}

#[test]
fn default_key_mode_takes_a_given_key() {
    let a = generate_sql_methods("UserAccount, accounts, i64").unwrap();
    let b = generate_sql_methods_with_required_key("UserAccount, accounts, i64").unwrap();
    assert_eq!(a, b);
    assert!(a.contains("struct_id: &i64"));
}

#[test]
fn record_type_not_a_path_is_rejected() {
    assert_eq!(
        generate_sql_methods("(i32, i32), accounts, Uuid"),
        Err(ExpandError::InvalidRecordType)
    );
    assert_eq!(
        generate_sql_methods("&UserAccount, accounts, Uuid"),
        Err(ExpandError::InvalidRecordType)
    );
    assert_eq!(
        generate_sql_methods("[u8; 4], accounts"),
        Err(ExpandError::InvalidRecordType)
    );
    assert_eq!(
        generate_sql_methods("(UserAccount,), accounts"),
        Err(ExpandError::InvalidRecordType)
    );
}

#[test]
fn table_route_not_a_path_is_rejected() {
    assert_eq!(
        generate_sql_methods("UserAccount, (a, b), Uuid"),
        Err(ExpandError::InvalidTableRoute)
    );
    assert_eq!(
        generate_sql_methods("UserAccount, &accounts"),
        Err(ExpandError::InvalidTableRoute)
    );
}

#[test]
fn missing_arguments_are_named() {
    assert_eq!(generate_sql_methods(""), Err(ExpandError::MissingRecordType));
    assert_eq!(generate_sql_methods("UserAccount"), Err(ExpandError::MissingTableRoute));
    assert_eq!(
        generate_sql_methods_with_required_key("UserAccount, accounts"),
        Err(ExpandError::MissingIdType)
    );
    assert_eq!(
        generate_sql_methods_with_required_key("UserAccount"),
        Err(ExpandError::MissingTableRoute)
    );
    assert_eq!(
        generate_sql_methods_with_required_key(""),
        Err(ExpandError::MissingRecordType)
    );
    assert!(ExpandError::MissingIdType.message().contains("third"));
    assert!(ExpandError::InvalidRecordType.message().contains("record type"));
}

#[test]
fn unparsable_input_is_rejected() {
    assert_eq!(generate_sql_methods("UserAccount,, Uuid"), Err(ExpandError::Unparsable));
    assert_eq!(generate_sql_methods("1 + 2"), Err(ExpandError::Unparsable));
}

#[test]
fn first_segment_of_record_path_wins() {
    let code = generate_sql_methods("models::UserAccount, accounts, Uuid").unwrap();
    assert!(code.contains("pub fn get_models("));
    assert!(code.contains("Result<models, SqlError>"));
}

#[test]
fn table_route_path_is_kept() {
    let code = generate_sql_methods("UserAccount, ::schema::accounts, Uuid").unwrap();
    assert!(code.contains(":: schema :: accounts::table"));
    assert!(code.contains("use :: schema :: accounts::dsl::*;"));
}

#[test]
fn stem_is_lowercased_in_full() {
    let n = derive_names("\u{c9}tatBase");
    assert_eq!(n.stem, "\u{e9}tat_base");
    assert_eq!(n.get, "get_\u{e9}tat_base");
    assert_eq!(n.insertable, "Insertable\u{c9}tatBase");
}

#[test]
fn input_at_the_token_bound_is_parsed() {
    let prefix = "UserAccount, accounts, ";
    let keys = [
        format!("{}u8{}", "(".repeat(21), ")".repeat(21)),
        format!("{}u8{}", "[".repeat(21), "]".repeat(21)),
        format!("{}u8{}", "Vec<".repeat(14), ">".repeat(14)),
        format!("{}u8", "&".repeat(43)),
        format!("[u8; {}1]", "-".repeat(39)),
        format!("[u8; {}1]", "!".repeat(39)),
        format!("[u8; {}1]", "return ".repeat(39)),
        format!("[u8; {}1]", "|| ".repeat(19)),
    ];
    for key in keys {
        let input = format!("{prefix}{key}");
        let n = count_token_starts(&input);
        assert!(n <= MAX_TOKENS && n + 3 > MAX_TOKENS, "{n} tokens in {input}");
        let code = generate_sql_methods(&input).unwrap();
        assert!(code.contains("pub fn get_user_account("));
    }
}

#[test]
fn token_starts_counted() {
    assert_eq!(count_token_starts("UserAccount, accounts, Uuid"), 5);
    assert_eq!(count_token_starts("A, b, Vec<[&str; 2]>"), 13);
    assert_eq!(count_token_starts("  x_1\tY2\n"), 2);
    assert_eq!(count_token_starts(""), 0);
}

#[test]
fn names_from_a_given_stem() {
    let n = names_from_stem("UserAccount", "user_account");
    assert_eq!(n.stem, "user_account");
    assert_eq!(n.get_with_conn, "get_user_account_with_conn");
    assert_eq!(n.patch, "patch_user_account");
    assert_eq!(n.insertable, "InsertableUserAccount");
    assert_eq!(n.updatable, "UpdatableUserAccount");
}

#[test]
fn render_from_a_given_stem() {
    let code = render_accessors_from_stem("UserAccount", "user_account", "accounts", "Uuid");
    assert_eq!(code, render_accessors("UserAccount", "accounts", "Uuid"));
    assert!(code.starts_with("pub fn get_user_account(struct_id: &Uuid, pool: &PgPool)"));
}
