use daox_models::models_mysql::users::{Users, UsersPatch, UsersOrderBy};
use daox_models::value::{SqlValue, UtcTimestamp};

fn user(email: &str) -> Users {
    Users {
        created_at: None,
        email: email.to_string(),
        first_name: Some("John".to_string()),
        id: 7,
        last_name: "Doe".to_string(),
        status: "active".to_string(),
    }
}

fn text(s: &str) -> SqlValue {
    SqlValue::Text(Some(s.to_string()))
}

#[test]
fn mysql_insert_matches_fixed_text() {
    let st = user("a@b.cd").insert().unwrap();
    assert_eq!(
        st.sql,
        "INSERT INTO `users` (`created_at`, `email`, `first_name`, `last_name`, `status`) VALUES (?, ?, ?, ?, ?)"
    );
    assert_eq!(
        st.binds,
        vec![SqlValue::Timestamp(None), text("a@b.cd"), text("John"), text("Doe"), text("active")]
    );
}

#[test]
fn mysql_upsert_matches_fixed_text() {
    let st = user("a@b.cd").upsert();
    assert_eq!(
        st.sql,
        "INSERT INTO `users` (`created_at`, `email`, `first_name`, `last_name`, `status`) VALUES (?, ?, ?, ?, ?) ON DUPLICATE KEY UPDATE `created_at` = VALUES(`created_at`), `email` = VALUES(`email`), `first_name` = VALUES(`first_name`), `last_name` = VALUES(`last_name`), `status` = VALUES(`status`)"
    );
    assert_eq!(st.binds.len(), 5);
}

#[test]
fn mysql_update_by_id_matches_fixed_text() {
    let st = user("a@b.cd").update_by_id();
    assert_eq!(
        st.sql,
        "UPDATE `users` SET `created_at` = ?, `email` = ?, `first_name` = ?, `last_name` = ?, `status` = ? WHERE `id` = ?"
    );
    assert_eq!(st.binds[5], SqlValue::BigInt(Some(7)));
}

#[test]
fn mysql_simple_reads() {
    let st = Users::get_by_id(3);
    assert_eq!(
        st.sql,
        "SELECT `created_at`, `email`, `first_name`, `id`, `last_name`, `status` FROM `users` WHERE `id` = ?"
    );
    assert_eq!(st.binds, vec![SqlValue::BigInt(Some(3))]);
    let st = Users::exists_by_email("x@y.zz");
    assert_eq!(st.sql, "SELECT 1 FROM `users` WHERE `email` = ? LIMIT 1");
    assert_eq!(st.binds, vec![text("x@y.zz")]);
    let st = Users::count();
    assert_eq!(st.sql, "SELECT COUNT(*) FROM `users`");
    assert!(st.binds.is_empty());
}

#[test]
fn mysql_limits_are_clamped() {
    assert_eq!(Users::stream_all(0).binds, vec![SqlValue::BigInt(Some(1))]);
    assert_eq!(Users::stream_all(-5).binds, vec![SqlValue::BigInt(Some(1))]);
    assert_eq!(Users::stream_all(20000).binds, vec![SqlValue::BigInt(Some(10000))]);
    assert_eq!(Users::stream_all(250).binds, vec![SqlValue::BigInt(Some(250))]);
    let st = Users::list_by_cursor(40, 0);
    assert_eq!(st.binds, vec![SqlValue::BigInt(Some(40)), SqlValue::BigInt(Some(1))]);
    let st = Users::list_by_last_name_and_first_name("Doe", "John", 99999);
    assert_eq!(
        st.sql,
        "SELECT `created_at`, `email`, `first_name`, `id`, `last_name`, `status` FROM `users` WHERE `last_name` = ? AND `first_name` = ? ORDER BY `id` ASC LIMIT ?"
    );
    assert_eq!(st.binds, vec![text("Doe"), text("John"), SqlValue::BigInt(Some(10000))]);
}

#[test]
fn mysql_insert_batch_two_rows() {
    let plan = Users::insert_batch(&[user("a@b.cd"), user("e@f.gh")]);
    assert_eq!(plan.len(), 1);
    assert_eq!(
        plan[0].sql,
        "INSERT INTO `users` (`created_at`, `email`, `first_name`, `last_name`, `status`) VALUES (?, ?, ?, ?, ?), (?, ?, ?, ?, ?)"
    );
    assert_eq!(plan[0].binds.len(), 10);
    assert_eq!(plan[0].binds[6], text("e@f.gh"));
}

#[test]
fn mysql_insert_batch_empty() {
    assert!(Users::insert_batch(&[]).is_empty());
}

#[test]
fn mysql_insert_batch_is_cut_at_the_bind_limit() {
    let items: Vec<Users> = (0..13108).map(|i| user(&format!("u{}@x.org", i))).collect();
    let plan = Users::insert_batch(&items);
    assert_eq!(plan.len(), 2);
    assert_eq!(plan[0].binds.len(), 65535);
    assert_eq!(plan[1].binds.len(), 5);
    assert_eq!(plan[1].binds[1], text("u13107@x.org"));
    assert_eq!(
        plan[1].sql,
        "INSERT INTO `users` (`created_at`, `email`, `first_name`, `last_name`, `status`) VALUES (?, ?, ?, ?, ?)"
    );
}

#[test]
fn mysql_delete_many() {
    let plan = Users::delete_many_by_id(&[1, 2, 3]);
    assert_eq!(plan.len(), 1);
    assert_eq!(plan[0].sql, "DELETE FROM `users` WHERE `id` IN (?, ?, ?)");
    assert_eq!(
        plan[0].binds,
        vec![SqlValue::BigInt(Some(1)), SqlValue::BigInt(Some(2)), SqlValue::BigInt(Some(3))]
    );
    let ids: Vec<i64> = (0..5001).collect();
    let plan = Users::delete_many_by_id(&ids);
    assert_eq!(plan.len(), 2);
    assert_eq!(plan[0].binds.len(), 5000);
    assert_eq!(plan[1].sql, "DELETE FROM `users` WHERE `id` IN (?)");
    assert!(Users::delete_many_by_id(&[]).is_empty());
}

#[test]
fn mysql_partial_update() {
    let patch = UsersPatch {
        email: Some("n@m.io".to_string()),
        status: Some("off".to_string()),
        ..UsersPatch::default()
    };
    let st = Users::update_partial_by_id(9, &patch).unwrap();
    assert_eq!(st.sql, "UPDATE `users` SET `email` = ?, `status` = ? WHERE `id` = ?");
    assert_eq!(st.binds, vec![text("n@m.io"), text("off"), SqlValue::BigInt(Some(9))]);
    let patch = UsersPatch { first_name: Some(None), ..UsersPatch::default() };
    let st = Users::update_partial_by_id(9, &patch).unwrap();
    assert_eq!(st.sql, "UPDATE `users` SET `first_name` = ? WHERE `id` = ?");
    assert_eq!(st.binds, vec![SqlValue::Text(None), SqlValue::BigInt(Some(9))]);
    assert!(Users::update_partial_by_id(9, &UsersPatch::default()).is_none());
}

#[test]
fn mysql_order_by_terms() {
    assert_eq!(UsersOrderBy::CreatedAtDesc.as_str(), "`created_at` DESC");
    assert_eq!(UsersOrderBy::IdAsc.as_str(), "`id` ASC");
}

#[test]
fn mysql_validated_forms() {
    let good = user("a@b.cd");
    assert_eq!(good.update_validated_by_id(), Ok(good.update_by_id()));
    assert_eq!(good.upsert_validated(), Ok(good.upsert()));
    let mut bad = user("");
    bad.last_name = String::new();
    assert_eq!(
        bad.update_validated_by_id(),
        Err("email: min_length 1 not met, email: format constraint not met, last_name: min_length 1 not met".to_string())
    );
}

#[test]
fn mysql_timestamp_bind() {
    let mut u = user("a@b.cd");
    u.created_at = Some(UtcTimestamp { secs: 1_700_000_000, nanos: 0 });
    assert_eq!(u.insert().unwrap().binds[0], SqlValue::Timestamp(Some(UtcTimestamp { secs: 1_700_000_000, nanos: 0 })));
}
