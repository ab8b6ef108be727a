use daox_models::models_sqlite::user_roles::UserRoles;
use daox_models::models_sqlite::comp_types_mat_view::CompTypesMatView;
use daox_models::models_mysql::comp_types_mat_view::CompTypesMatView as MysqlMatView;
use daox_models::models_mysql::daox_generated::active_users::ActiveUsers as CompactActiveUsers;
use daox_models::models_pg::daox_generated::active_users::ActiveUsers as CompactPgActiveUsers;
use daox_models::models::currencies::Currencies as OldCurrencies;
use daox_models::value::SqlValue;

#[test]
fn sqlite_order_is_rewritten_term_by_term() {
    let st = UserRoles::list_paginated("  role_name desc , user_id ASC,assigned_at", 2, 10).unwrap();
    assert_eq!(
        st.sql,
        "SELECT `assigned_at`, `role_name`, `user_id` FROM user_roles ORDER BY role_name DESC, user_id ASC, assigned_at ASC LIMIT ? OFFSET ?"
    );
    assert_eq!(st.binds, vec![SqlValue::BigInt(Some(10)), SqlValue::BigInt(Some(10))]);
}

#[test]
fn sqlite_order_rejects_unknown_columns() {
    assert_eq!(
        UserRoles::list_paginated("user_id, password DESC", 1, 10),
        Err("Invalid ORDER BY: password".to_string())
    );
    assert_eq!(
        UserRoles::list_paginated("user_id; DROP TABLE user_roles", 1, 10),
        Err("Invalid ORDER BY: user_id; DROP TABLE user_roles".to_string())
    );
    assert_eq!(UserRoles::list_paginated("", 1, 10), Err("Invalid ORDER BY: ".to_string()));
}

#[test]
fn allowed_order_is_passed_on_unchanged() {
    let st = MysqlMatView::list_paginated("id DESC, f_int", 1, 20000).unwrap();
    assert_eq!(
        st.sql,
        "SELECT `f_blob`, `f_bool`, `f_date`, `f_datetime`, `f_decimal`, `f_double`, `f_float`, `f_int`, `f_json`, `f_text`, `f_timestamp`, `f_varchar`, `id` FROM comp_types_mat_view ORDER BY id DESC, f_int LIMIT ? OFFSET ?"
    );
    assert_eq!(st.binds, vec![SqlValue::BigInt(Some(10000)), SqlValue::BigInt(Some(0))]);
    assert_eq!(
        MysqlMatView::list_paginated("id desc", 1, 10),
        Err("Invalid ORDER BY: id desc".to_string())
    );
    assert_eq!(
        MysqlMatView::list_paginated("id ASC ASC", 1, 10).map(|s| s.binds.len()),
        Ok(2)
    );
}

#[test]
fn compact_listing_checks_characters() {
    let st = CompactActiveUsers::list_paginated("`id` DESC, email", 3, 25).unwrap();
    assert_eq!(
        st.sql,
        "SELECT `email`, `first_name`, `id`, `last_name` FROM active_users ORDER BY `id` DESC, email LIMIT ? OFFSET ?"
    );
    assert_eq!(st.binds, vec![SqlValue::BigInt(Some(25)), SqlValue::BigInt(Some(50))]);
    assert_eq!(
        CompactActiveUsers::list_paginated("id; DROP", 1, 10),
        Err("Invalid characters in ORDER BY. Potential SQL injection.".to_string())
    );
}

#[test]
fn compact_pg_listing_keeps_page_size() {
    let st = CompactPgActiveUsers::list_paginated("id", 2, 20000).unwrap();
    assert_eq!(
        st.sql,
        "SELECT \"email\", \"first_name\", \"id\", \"last_name\" FROM active_users ORDER BY id LIMIT $1 OFFSET $2"
    );
    assert_eq!(st.binds, vec![SqlValue::BigInt(Some(20000)), SqlValue::BigInt(Some(20000))]);
}

#[test]
fn first_layout_listing_inserts_the_text() {
    let st = OldCurrencies::list_paginated("code", 3, 7);
    assert_eq!(st.sql, "SELECT * FROM currencies ORDER BY code LIMIT ? OFFSET ?");
    assert_eq!(st.binds, vec![SqlValue::UnsignedInt(Some(7)), SqlValue::UnsignedInt(Some(14))]);
}

#[test]
fn sqlite_batch_respects_the_smaller_bind_limit() {
    let items: Vec<UserRoles> = (0..10923)
        .map(|i| UserRoles { assigned_at: None, role_name: "r".to_string(), user_id: i })
        .collect();
    let plan = UserRoles::insert_batch(&items);
    assert_eq!(plan.len(), 2);
    assert_eq!(plan[0].binds.len(), 32766);
    assert_eq!(plan[1].sql, "INSERT INTO user_roles (`assigned_at`, `role_name`, `user_id`) VALUES (?, ?, ?)");
}

#[test]
fn sqlite_finite_check() {
    let mut v = CompTypesMatView {
        f_blob: None, f_bool: None, f_date: None, f_datetime: None, f_decimal: Some("NaN".to_string()),
        f_double: Some("inf".to_string()), f_float: Some("1.25".to_string()), f_int: Some(3), f_json: None,
        f_text: None, f_timestamp: None, f_varchar: None, id: Some(1),
    };
    assert_eq!(
        v.validate(),
        Err(vec![
            "f_decimal: value must be finite (NaN/Infinity rejected)".to_string(),
            "f_double: value must be finite (NaN/Infinity rejected)".to_string(),
        ])
    );
    v.f_decimal = Some("-inf".to_string());
    v.f_double = None;
    v.f_int = Some(-1);
    assert_eq!(
        v.validate(),
        Err(vec![
            "f_decimal: value must be finite (NaN/Infinity rejected)".to_string(),
            "f_int: minimum value '0' not met".to_string(),
        ])
    );
}
