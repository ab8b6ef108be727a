use daox_models::models_mysql::users::{Users, UsersPatch};
use daox_models::models_pg::comp_types_table::CompTypesTable;
use daox_models::models_pg::comp_types_metadata::{CompTypesMetadata, CompTypesMetadataPatch};
use daox_models::models_pg::currencies::Currencies;
use daox_models::models_sqlite::user_roles::UserRoles;
use daox_models::value::{CalendarDate, SqlValue, UtcTimestamp};
use daox_models::models_pg::comp_types_mat_view::CompTypesMatView as PgMatView;

fn user(i: i64) -> Users {
    Users {
        created_at: None,
        email: format!("u{}@x.org", i),
        first_name: if i % 2 == 0 { None } else { Some(format!("F{}", i)) },
        id: i,
        last_name: format!("L{}", i),
        status: "active".to_string(),
    }
}

#[test]
fn batch_statements_keep_every_value_in_order() {
    let items: Vec<Users> = (0..13110).map(user).collect();
    let plan = Users::insert_batch(&items);
    let sent: Vec<SqlValue> = plan.into_iter().flat_map(|st| st.binds).collect();
    let expected: Vec<SqlValue> = items.iter().flat_map(|u| u.row()).collect();
    assert_eq!(sent, expected);
}

#[test]
fn batch_of_one_row_is_the_single_insert() {
    let u = user(3);
    let plan = Users::insert_batch(&[u.clone()]);
    assert_eq!(plan, vec![u.insert_unchecked()]);
    let plan = Users::upsert_batch(&[u.clone()]);
    assert_eq!(plan, vec![u.upsert()]);
}

#[test]
fn delete_many_keeps_every_key_in_order() {
    let ids: Vec<i64> = (0..12345).rev().collect();
    let plan = Users::delete_many_by_id(&ids);
    assert_eq!(plan.len(), 3);
    assert!(plan.iter().all(|st| st.binds.len() <= 5000));
    let sent: Vec<SqlValue> = plan.into_iter().flat_map(|st| st.binds).collect();
    let expected: Vec<SqlValue> = ids.iter().map(|i| SqlValue::BigInt(Some(*i))).collect();
    assert_eq!(sent, expected);
}

#[test]
fn copy_sends_every_row_once() {
    let items: Vec<CompTypesTable> = (0..2500)
        .map(|i| CompTypesTable {
            f_bool: Some(i % 3 == 0),
            f_decimal: None,
            f_double: Some(format!("{}.5", i)),
            f_float: None,
            f_int: Some(i),
            f_text: Some(format!("t\"{}", i)),
            f_varchar: None,
            id: i as i64,
        })
        .collect();
    let plan = CompTypesTable::insert_batch(&items).unwrap();
    assert_eq!(plan.payloads.len(), 3);
    let all: String = plan.payloads.concat();
    let expected: String = items
        .iter()
        .map(|r| format!("{},,{}.5,,{},\"t\"\"{}\",\n", r.f_bool.unwrap(), r.f_int.unwrap(), r.f_int.unwrap(), r.f_int.unwrap()))
        .collect();
    assert_eq!(all, expected);
}

#[test]
fn full_patch_is_the_full_update() {
    let u = user(11);
    let patch = UsersPatch {
        created_at: Some(u.created_at),
        email: Some(u.email.clone()),
        first_name: Some(u.first_name.clone()),
        last_name: Some(u.last_name.clone()),
        status: Some(u.status.clone()),
    };
    assert_eq!(Users::update_partial_by_id(u.id, &patch), Some(u.update_by_id()));
}

#[test]
fn rewritten_order_holds_only_allowed_columns() {
    let st = UserRoles::list_paginated("user_id DESC DESC,role_name asc", 1, 5).unwrap();
    assert!(st.sql.ends_with("ORDER BY user_id DESC, role_name ASC LIMIT ? OFFSET ?"));
}

#[test]
fn partial_updates_bind_one_value_per_placeholder() {
    let patch = CompTypesMetadataPatch {
        f_json: Some(Some("{\"a\":1}".to_string())),
        ..CompTypesMetadataPatch::default()
    };
    let st = CompTypesMetadata::update_partial_by_id(4, &patch).unwrap();
    assert_eq!(st.sql.matches('$').count(), st.binds.len());
    let patch = UsersPatch { email: Some("e@f.gh".to_string()), last_name: Some("L".to_string()), ..UsersPatch::default() };
    let st = Users::update_partial_by_id(4, &patch).unwrap();
    assert_eq!(st.sql.matches('?').count(), st.binds.len());
}

fn read_back(body: &str) -> String {
    body.replace("\"\"", "\"")
}

#[test]
fn csv_fields_read_back_as_written() {
    let name = "say \"\"hi\"\" \"now\"";
    let plan = Currencies::insert_batch(&[Currencies { code: "C".to_string(), name: name.to_string() }]).unwrap();
    let line = plan.payloads[0].trim_end_matches('\n');
    let body = &line["\"C\",\"".len()..line.len() - 1];
    assert_eq!(read_back(body), name);
}

#[test]
fn validation_reports_every_failed_check_in_field_order() {
    let u = Users { email: "not-an-email".to_string(), ..user(2) };
    assert_eq!(u.validate(), Err(vec!["email: format constraint not met".to_string()]));
    let u = Users {
        created_at: None,
        email: String::new(),
        first_name: None,
        id: -5,
        last_name: String::new(),
        status: String::new(),
    };
    assert_eq!(
        u.validate(),
        Err(vec![
            "email: min_length 1 not met".to_string(),
            "email: format constraint not met".to_string(),
            "id: minimum value '0' not met".to_string(),
            "last_name: min_length 1 not met".to_string(),
            "status: min_length 1 not met".to_string(),
        ])
    );
}

#[test]
fn insert_refuses_what_validate_refuses() {
    let u = Users { email: "not-an-email".to_string(), ..user(2) };
    assert_eq!(u.insert(), Err("email: format constraint not met".to_string()));
    let u = user(2);
    assert_eq!(u.insert(), Ok(u.insert_unchecked()));
}

/// Reads CSV records: fields split by commas, records ended by a newline,
/// `""` inside quotes read as one quote, an empty unquoted field read as none.
fn read_csv(text: &str) -> Vec<Vec<Option<String>>> {
    let chars: Vec<char> = text.chars().collect();
    let mut records = Vec::new();
    let mut fields = Vec::new();
    let mut i = 0;
    while i < chars.len() {
        let value = if chars[i] == '"' {
            let mut body = String::new();
            i += 1;
            loop {
                if chars[i] == '"' {
                    if i + 1 < chars.len() && chars[i + 1] == '"' {
                        body.push('"');
                        i += 2;
                    } else {
                        i += 1;
                        break;
                    }
                } else {
                    body.push(chars[i]);
                    i += 1;
                }
            }
            Some(body)
        } else {
            let start = i;
            while i < chars.len() && chars[i] != ',' && chars[i] != '\n' {
                i += 1;
            }
            if i == start { None } else { Some(chars[start..i].iter().collect()) }
        };
        fields.push(value);
        if chars[i] == '\n' {
            records.push(std::mem::take(&mut fields));
        }
        i += 1;
    }
    records
}

#[test]
fn copy_payloads_read_back_row_by_row() {
    let items: Vec<CompTypesTable> = (0..1500)
        .map(|i| CompTypesTable {
            f_bool: if i % 4 == 0 { None } else { Some(i % 2 == 0) },
            f_decimal: Some(format!("{}.25", i)),
            f_double: None,
            f_float: Some("-0.5".to_string()),
            f_int: Some(i),
            f_text: Some(format!("say \"{}\", then\nstop", i)),
            f_varchar: if i % 3 == 0 { None } else { Some(String::new()) },
            id: i as i64,
        })
        .collect();
    let plan = CompTypesTable::insert_batch(&items).unwrap();
    let records = read_csv(&plan.payloads.concat());
    assert_eq!(records.len(), items.len());
    for (r, it) in records.iter().zip(items.iter()) {
        let expected = vec![
            it.f_bool.map(|b| b.to_string()),
            it.f_decimal.clone(),
            it.f_double.clone(),
            it.f_float.clone(),
            it.f_int.map(|v| v.to_string()),
            it.f_text.clone(),
            it.f_varchar.clone(),
        ];
        assert_eq!(r, &expected);
    }
}

#[test]
fn copy_payloads_with_dates_read_back_row_by_row() {
    let items: Vec<PgMatView> = (0..40)
        .map(|i| PgMatView {
            f_blob: if i % 2 == 0 { Some(vec![i as u8, 0xff]) } else { None },
            f_bool: Some(i % 3 == 0),
            f_date: Some(CalendarDate { days_from_ce: 738_000 + i }),
            f_datetime: Some(UtcTimestamp { secs: 1_700_000_000 + i as i64, nanos: 250_000_000 }),
            f_decimal: Some(format!("{}.5", i)),
            f_double: Some("2.25".to_string()),
            f_float: None,
            f_int: Some(-i),
            f_json: Some(format!("{{\"k\": {}}}", i)),
            f_text: Some(format!("t,{}", i)),
            f_timestamp: None,
            f_varchar: Some("v\\w".to_string()),
            id: i as i64,
        })
        .collect();
    let plan = PgMatView::insert_batch(&items).unwrap();
    let records = read_csv(&plan.payloads.concat());
    assert_eq!(records.len(), items.len());
    for (r, it) in records.iter().zip(items.iter()) {
        let expected = vec![
            it.f_blob.as_ref().map(|b| format!("\\x{}", b.iter().map(|x| format!("{:02x}", x)).collect::<String>())),
            it.f_bool.map(|b| b.to_string()),
            it.f_date.and_then(|d| d.text()),
            it.f_datetime.and_then(|t| t.text()),
            it.f_decimal.clone(),
            it.f_double.clone(),
            it.f_float.clone(),
            it.f_int.map(|v| v.to_string()),
            it.f_json.clone(),
            it.f_text.clone(),
            it.f_timestamp.and_then(|t| t.text()),
            it.f_varchar.clone(),
            Some(it.id.to_string()),
        ];
        assert_eq!(r, &expected);
    }
}
