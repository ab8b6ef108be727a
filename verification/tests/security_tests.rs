use daox_models::models_mysql::product_metadata::ProductMetadata;
use daox_models::models_mysql::users::Users;

fn user_with_email(email: &str) -> Users {
    Users {
        created_at: None,
        email: email.to_string(),
        first_name: Some("John".to_string()),
        id: 0,
        last_name: "Doe".to_string(),
        status: "active".to_string(),
    }
}

#[test]
fn test_description_with_quotes() {
    let desc = r#"This has "quotes" and \backslashes"#;
    let serialized = format!("{:?}", desc);
    assert_eq!(serialized, r#""This has \"quotes\" and \\backslashes""#);
}

#[test]
fn test_format_regex_with_special_chars() {
    let regex = "^it's$";
    let serialized = format!("{:?}", regex);
    assert_eq!(serialized, r#""^it's$""#);
}

#[test]
fn test_enum_values_with_special_chars() {
    let vals = vec!["val'ue", "val\"ue", "val\\ue"];
    for v in &vals {
        let serialized = format!("{:?}", v);
        assert!(serialized.starts_with('"'));
    }
}

#[test]
fn test_generated_code_size_bounded() {
    // The update of any subset of the columns is one statement whose text
    // grows with the number of columns set, not with the number of subsets.
    let patch = daox_models::models_mysql::comp_types_table::CompTypesTablePatch {
        f_bool: Some(Some(true)),
        f_decimal: Some(Some("1.5".to_string())),
        f_double: Some(Some("2.5".to_string())),
        f_float: Some(Some("3.5".to_string())),
        f_int: Some(Some(4)),
        f_text: Some(Some("t".to_string())),
        f_varchar: Some(Some("v".to_string())),
    };
    let st = daox_models::models_mysql::comp_types_table::CompTypesTable::update_partial_by_id(1, &patch).unwrap();
    assert!(st.sql.len() < 1000);
    assert_eq!(st.binds.len(), 8);
}

#[test]
fn test_reject_more_than_10_update_columns() {
    // A patch that sets nothing gives no statement.
    let patch = daox_models::models_mysql::comp_types_table::CompTypesTablePatch::default();
    assert!(daox_models::models_mysql::comp_types_table::CompTypesTable::update_partial_by_id(1, &patch).is_none());
}

#[test]
fn test_insert_validated_rejects_invalid() {
    let user = user_with_email("");
    assert_eq!(user.insert_validated(), Err("email: min_length 1 not met, email: format constraint not met".to_string()));
    let user = user_with_email("not-an-email");
    assert_eq!(user.validate(), Err(vec!["email: format constraint not met".to_string()]));
    assert_eq!(user.insert_validated(), Err("email: format constraint not met".to_string()));
    let user = user_with_email("demo@daox.dev");
    assert!(user.insert_validated().is_ok());
}

#[test]
fn test_enum_validation() {
    let item = ProductMetadata {
        attributes: None,
        category: "toys".to_string(),
        id: vec![1, 2, 3],
        raw_data: None,
    };
    assert_eq!(item.validate(), Err(vec!["category: invalid enum value".to_string()]));
    let item = ProductMetadata { category: "books".to_string(), ..item };
    assert_eq!(item.validate(), Ok(()));
}
