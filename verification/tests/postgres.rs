use daox_models::models_pg::currencies::{Currencies, CurrenciesPatch};
use daox_models::models_pg::user_roles::{UserRoles, UserRolesOrderBy};
use daox_models::models_pg::users::{Users, UsersPatch};
use daox_models::models_pg::comp_types_table::CompTypesTable;
use daox_models::value::{SqlValue, UtcTimestamp};

fn user(email: &str) -> Users {
    Users {
        created_at: None,
        email: email.to_string(),
        first_name: None,
        id: 5,
        last_name: "Doe".to_string(),
        status: "active".to_string(),
    }
}

#[test]
fn pg_insert_returns_the_key() {
    let st = user("a@b.cd").insert();
    assert_eq!(
        st.sql,
        "INSERT INTO users (\"created_at\", \"email\", \"first_name\", \"last_name\", \"status\") VALUES ($1, $2, $3, $4, $5) RETURNING \"id\"::bigint"
    );
}

#[test]
fn pg_placeholders_are_numbered_across_rows() {
    let plan = Users::upsert_batch(&[user("a@b.cd"), user("e@f.gh")]);
    assert_eq!(plan.len(), 1);
    assert_eq!(
        plan[0].sql,
        "INSERT INTO users (\"created_at\", \"email\", \"first_name\", \"last_name\", \"status\") VALUES ($1, $2, $3, $4, $5), ($6, $7, $8, $9, $10) ON CONFLICT (\"id\") DO UPDATE SET \"created_at\" = EXCLUDED.\"created_at\", \"email\" = EXCLUDED.\"email\", \"first_name\" = EXCLUDED.\"first_name\", \"last_name\" = EXCLUDED.\"last_name\", \"status\" = EXCLUDED.\"status\""
    );
}

#[test]
fn pg_update_and_partial_update() {
    let st = user("a@b.cd").update_by_id();
    assert_eq!(
        st.sql,
        "UPDATE users SET \"created_at\" = $1, \"email\" = $2, \"first_name\" = $3, \"last_name\" = $4, \"status\" = $5 WHERE \"id\" = $6"
    );
    let patch = UsersPatch { email: Some("z@z.io".to_string()), status: Some("x".to_string()), ..UsersPatch::default() };
    let st = Users::update_partial_by_id(5, &patch).unwrap();
    assert_eq!(st.sql, "UPDATE users SET \"email\" = $1, \"status\" = $2 WHERE \"id\" = $3");
    assert_eq!(
        st.binds,
        vec![SqlValue::Text(Some("z@z.io".to_string())), SqlValue::Text(Some("x".to_string())), SqlValue::BigInt(Some(5))]
    );
}

#[test]
fn pg_partial_update_with_text_key() {
    let patch = CurrenciesPatch { name: Some("Euro".to_string()) };
    let st = Currencies::update_partial_by_code("EUR", &patch).unwrap();
    assert_eq!(st.sql, "UPDATE \"currencies\" SET \"name\" = $1 WHERE \"code\" = $2");
    assert_eq!(st.binds, vec![SqlValue::Text(Some("Euro".to_string())), SqlValue::Text(Some("EUR".to_string()))]);
    assert!(Currencies::update_partial_by_code("EUR", &CurrenciesPatch { name: None }).is_none());
}

#[test]
fn pg_delete_many_by_text_key() {
    let plan = Currencies::delete_many_by_code(&["EUR", "USD"]);
    assert_eq!(plan.len(), 1);
    assert_eq!(plan[0].sql, "DELETE FROM \"currencies\" WHERE \"code\" IN ($1, $2)");
}

#[test]
fn pg_copy_payload_doubles_quotes_only() {
    let items = vec![
        Currencies { code: "EUR".to_string(), name: "Euro \"sign\"".to_string() },
        Currencies { code: "X\\Y".to_string(), name: "plain".to_string() },
    ];
    let plan = Currencies::insert_batch(&items).unwrap();
    assert_eq!(plan.statement, "COPY \"currencies\" (\"code\", \"name\") FROM STDIN WITH (FORMAT csv)");
    assert_eq!(plan.payloads, vec!["\"EUR\",\"Euro \"\"sign\"\"\"\n\"X\\Y\",\"plain\"\n".to_string()]);
    assert!(Currencies::insert_batch(&[]).is_none());
}

#[test]
fn pg_copy_payload_of_mixed_columns() {
    let row = CompTypesTable {
        f_bool: Some(true),
        f_decimal: Some("1.5".to_string()),
        f_double: None,
        f_float: Some("-2".to_string()),
        f_int: Some(-42),
        f_text: Some("a \"b\"".to_string()),
        f_varchar: None,
        id: 1,
    };
    let plan = CompTypesTable::insert_batch(&[row]).unwrap();
    assert_eq!(plan.payloads, vec!["true,1.5,,-2,-42,\"a \"\"b\"\"\",\n".to_string()]);
}

#[test]
fn pg_copy_payload_of_timestamps() {
    let mut u = user("a@b.cd");
    u.created_at = Some(UtcTimestamp { secs: 1_700_000_000, nanos: 0 });
    let plan = Users::insert_batch(&[u]).unwrap();
    assert_eq!(plan.payloads, vec!["\"2023-11-14 22:13:20 UTC\",\"a@b.cd\",,\"Doe\",\"active\"\n".to_string()]);
}

#[test]
fn pg_copy_rows_are_cut_in_pieces() {
    let items: Vec<Users> = (0..10001).map(|i| user(&format!("u{}@x.org", i))).collect();
    let plan = Users::insert_batch(&items).unwrap();
    assert_eq!(plan.payloads.len(), 2);
    assert_eq!(plan.payloads[1], ",\"u10000@x.org\",,\"Doe\",\"active\"\n");
}

#[test]
fn pg_paginated_listing_by_orderings() {
    let st = UserRoles::list_paginated(&[UserRolesOrderBy::RoleNameAsc, UserRolesOrderBy::UserIdDesc], 3, 50).unwrap();
    assert_eq!(
        st.sql,
        "SELECT \"assigned_at\", \"role_name\", \"user_id\" FROM user_roles ORDER BY \"role_name\" ASC, \"user_id\" DESC LIMIT $1 OFFSET $2"
    );
    assert_eq!(st.binds, vec![SqlValue::BigInt(Some(50)), SqlValue::BigInt(Some(100))]);
    let st = UserRoles::list_paginated(&[UserRolesOrderBy::UserIdAsc], 0, 0).unwrap();
    assert_eq!(st.binds, vec![SqlValue::BigInt(Some(1)), SqlValue::BigInt(Some(0))]);
    assert_eq!(UserRoles::list_paginated(&[], 1, 10), Err("ORDER BY cannot be empty".to_string()));
}
