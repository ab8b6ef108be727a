use daox_models::models_pg::currencies::Currencies as PgCurrencies;
use daox_models::models_pg::user_roles::UserRoles as PgUserRoles;
use daox_models::models_pg::comp_types_metadata::CompTypesMetadata as PgMetadata;
use daox_models::value::CalendarDate;
use daox_models::models_mysql::comp_types_view::CompTypesViewOrderBy as O;
use daox_models::models::currencies::Currencies as OldCurrencies;
use daox_models::models_mysql::active_users::{ActiveUsers as MysqlActiveUsers, ActiveUsersOrderBy as MysqlActiveUsersOrderBy};
use daox_models::models_pg::comp_types_table::CompTypesTable;
use daox_models::models_pg::users::Users as PgUsers;
use daox_models::models_sqlite::active_users::{ActiveUsers, ActiveUsersOrderBy};
use daox_models::models_sqlite::comp_types_mat_view::CompTypesMatView;
use daox_models::validation::record_format_outcome;
use daox_models::value::{SqlValue, UtcTimestamp};

fn view_row(id: i32) -> CompTypesMatView {
    CompTypesMatView {
        f_blob: None,
        f_bool: Some(true),
        f_date: None,
        f_datetime: None,
        f_decimal: None,
        f_double: None,
        f_float: None,
        f_int: Some(id),
        f_json: None,
        f_text: Some("Crème brûlée 42".to_string()),
        f_timestamp: None,
        f_varchar: Some("plain_text-ok".to_string()),
        id: Some(id),
    }
}

#[test]
fn sqlite_view_format_checks_run_in_validate() {
    assert_eq!(view_row(1).validate(), Ok(()));
    let mut v = view_row(1);
    v.f_text = Some("a!b".to_string());
    v.f_varchar = Some("semi;colon".to_string());
    assert_eq!(
        v.validate(),
        Err(vec![
            "f_text: format constraint not met".to_string(),
            "f_varchar: format constraint not met".to_string(),
        ])
    );
    assert_eq!(v.insert(), Err("f_text: format constraint not met, f_varchar: format constraint not met".to_string()));
}

#[test]
fn sqlite_view_batch_refuses_the_first_invalid_row() {
    let mut bad = view_row(2);
    bad.f_text = Some("a!b".to_string());
    let mut worse = view_row(3);
    worse.id = Some(-1);
    let items = vec![view_row(1), bad, worse];
    assert_eq!(
        CompTypesMatView::insert_batch(&items),
        Err("insert_batch: item 1 failed validation: f_text: format constraint not met".to_string())
    );
    let plan = CompTypesMatView::insert_batch(&[view_row(1), view_row(2)]).unwrap();
    assert_eq!(plan.len(), 1);
    assert_eq!(plan[0].binds.len(), 26);
    assert_eq!(CompTypesMatView::insert_batch(&[]), Ok(vec![]));
}

#[test]
fn format_outcomes_are_recorded() {
    let mut errors = vec!["first".to_string()];
    record_format_outcome(&mut errors, Some(true), "no match", "bad pattern");
    assert_eq!(errors, vec!["first".to_string()]);
    record_format_outcome(&mut errors, Some(false), "no match", "bad pattern");
    record_format_outcome(&mut errors, None, "no match", "bad pattern");
    assert_eq!(errors, vec!["first".to_string(), "no match".to_string(), "bad pattern".to_string()]);
}

#[test]
fn view_streams_always_carry_a_bound() {
    assert_eq!(ActiveUsers::stream_all(-1).binds, vec![SqlValue::BigInt(Some(1))]);
    assert_eq!(ActiveUsers::stream_all(0).binds, vec![SqlValue::BigInt(Some(1))]);
    assert_eq!(ActiveUsers::stream_all(50_000).binds, vec![SqlValue::BigInt(Some(10000))]);
    assert_eq!(MysqlActiveUsers::stream_all(-1).binds, vec![SqlValue::BigInt(Some(1))]);
    assert_eq!(MysqlActiveUsers::stream_all(77).binds, vec![SqlValue::BigInt(Some(77))]);
}

#[test]
fn empty_ordering_is_refused_whatever_the_page() {
    assert_eq!(ActiveUsers::list_paginated(&[], u32::MAX, u32::MAX), Err("ORDER BY cannot be empty".to_string()));
    assert_eq!(MysqlActiveUsers::list_paginated(&[], u32::MAX, 10), Err("ORDER BY cannot be empty".to_string()));
    let st = ActiveUsers::list_paginated(&[ActiveUsersOrderBy::IdDesc], 3, 10).unwrap();
    assert_eq!(st.binds, vec![SqlValue::BigInt(Some(10)), SqlValue::BigInt(Some(20))]);
    let st = MysqlActiveUsers::list_paginated(&[MysqlActiveUsersOrderBy::EmailAsc], 1, 0).unwrap();
    assert_eq!(st.binds, vec![SqlValue::BigInt(Some(1)), SqlValue::BigInt(Some(0))]);
}

#[test]
fn first_layout_batch_is_one_statement() {
    let items: Vec<OldCurrencies> = ["EUR", "USD", "JPY"]
        .iter()
        .map(|c| OldCurrencies { code: c.to_string(), name: format!("{} name", c) })
        .collect();
    let plan = OldCurrencies::insert_batch(&items);
    assert_eq!(plan.len(), 1);
    assert_eq!(plan[0].sql, "INSERT INTO currencies (code, name) VALUES (?, ?), (?, ?), (?, ?)");
    assert_eq!(
        plan[0].binds,
        vec![
            SqlValue::Text(Some("EUR".to_string())),
            SqlValue::Text(Some("EUR name".to_string())),
            SqlValue::Text(Some("USD".to_string())),
            SqlValue::Text(Some("USD name".to_string())),
            SqlValue::Text(Some("JPY".to_string())),
            SqlValue::Text(Some("JPY name".to_string())),
        ]
    );
    assert!(OldCurrencies::insert_batch(&[]).is_empty());
}

#[test]
fn copy_payloads_are_never_empty() {
    let items: Vec<CompTypesTable> = (0..3001)
        .map(|i| CompTypesTable {
            f_bool: None,
            f_decimal: None,
            f_double: None,
            f_float: None,
            f_int: Some(i),
            f_text: None,
            f_varchar: None,
            id: i as i64,
        })
        .collect();
    let plan = CompTypesTable::insert_batch(&items).unwrap();
    assert_eq!(plan.payloads.len(), 4);
    assert!(plan.payloads.iter().all(|p| !p.is_empty()));
    assert!(CompTypesTable::insert_batch(&[]).is_none());
}

#[test]
fn copy_needs_displayable_instants() {
    let mut u = PgUsers {
        created_at: Some(UtcTimestamp { secs: 1_700_000_000, nanos: 0 }),
        email: "a@b.cd".to_string(),
        first_name: None,
        id: 1,
        last_name: "Doe".to_string(),
        status: "active".to_string(),
    };
    assert!(u.can_copy());
    let plan = PgUsers::insert_batch(&[u.clone()]).unwrap();
    assert_eq!(plan.payloads, vec!["\"2023-11-14 22:13:20 UTC\",\"a@b.cd\",,\"Doe\",\"active\"\n".to_string()]);
    u.created_at = Some(UtcTimestamp { secs: i64::MAX, nanos: 0 });
    assert!(!u.can_copy());
    u.created_at = None;
    assert!(u.can_copy());
}

#[test]
fn copy_keeps_backslashes_as_they_are() {
    let role = PgUserRoles { assigned_at: None, role_name: "a\\b \"x\"".to_string(), user_id: 7 };
    let plan = PgUserRoles::insert_batch(&[role]).unwrap();
    assert_eq!(plan.payloads, vec![",\"a\\b \"\"x\"\"\",7\n".to_string()]);
    let c = PgCurrencies { code: "C\\D".to_string(), name: "back\\slash".to_string() };
    let plan = PgCurrencies::insert_batch(&[c]).unwrap();
    assert_eq!(plan.payloads, vec!["\"C\\D\",\"back\\slash\"\n".to_string()]);
}

#[test]
fn copy_writes_bytes_as_quoted_hex() {
    let row = PgMetadata {
        comp_types_id: 3,
        f_blob: Some(vec![0x01, 0x02, 0xff]),
        f_date: None,
        f_datetime: None,
        f_json: None,
        f_timestamp: None,
        id: 9,
    };
    let plan = PgMetadata::insert_batch(&[row]).unwrap();
    assert_eq!(plan.payloads, vec!["3,\"\\x0102ff\",,,,\n".to_string()]);
}

#[test]
fn instants_and_dates_follow_chrono_range() {
    let t = |secs: i64, nanos: u32| UtcTimestamp { secs, nanos };
    for (ts, ok) in [
        (t(8_210_266_876_799, 0), true),
        (t(8_210_266_876_800, 0), false),
        (t(-8_334_601_228_800, 0), true),
        (t(-8_334_601_228_801, 0), false),
        (t(59, 1_500_000_000), true),
        (t(-1, 1_999_999_999), true),
        (t(58, 1_000_000_000), false),
        (t(59, 2_000_000_000), false),
        (t(0, 999_999_999), true),
    ] {
        assert_eq!(ts.in_range(), ok);
        assert_eq!(ts.text().is_some(), ok);
    }
    assert_eq!(t(59, 1_500_000_000).text(), Some("1970-01-01 00:00:60.500 UTC".to_string()));
    for (days, ok) in [(95_745_399, true), (95_745_400, false), (-95_746_129, true), (-95_746_130, false)] {
        let d = CalendarDate { days_from_ce: days };
        assert_eq!(d.in_range(), ok);
        assert_eq!(d.text().is_some(), ok);
    }
}

#[test]
fn ordering_terms_are_all_different() {
    let all = [
        O::FBlobAsc, O::FBlobDesc, O::FBoolAsc, O::FBoolDesc, O::FDateAsc, O::FDateDesc,
        O::FDatetimeAsc, O::FDatetimeDesc, O::FDecimalAsc, O::FDecimalDesc, O::FDoubleAsc, O::FDoubleDesc,
        O::FFloatAsc, O::FFloatDesc, O::FIntAsc, O::FIntDesc, O::FJsonAsc, O::FJsonDesc,
        O::FTextAsc, O::FTextDesc, O::FTimestampAsc, O::FTimestampDesc, O::FVarcharAsc, O::FVarcharDesc,
        O::IdAsc, O::IdDesc,
    ];
    let terms: std::collections::HashSet<&str> = all.iter().map(|o| o.as_str()).collect();
    assert_eq!(terms.len(), all.len());
    assert_eq!(O::FDatetimeDesc.as_str(), "`f_datetime` DESC");
}
