use daox_models::copy::{copy_payloads, CsvField};
use daox_models::order::{check_order, normalize_order, order_text_is_safe};
use daox_models::paging::{approximate_count, approximate_count_nullable, exact_count, page_limit, page_offset, row_limit};
use daox_models::sql::{in_list_text, page_text, update_text, values_text, Placeholder};
use daox_models::text::{i64_text, join_strings};
use daox_models::validation::{check_enum, check_finite, check_format, check_max, check_min, joined_errors};
use daox_models::value::{CalendarDate, UtcTimestamp};

#[test]
fn values_text_numbers_placeholders() {
    assert_eq!(values_text("INSERT INTO t (a, b) ", Placeholder::Numbered, 2, 2, " RETURNING id"), "INSERT INTO t (a, b) VALUES ($1, $2), ($3, $4) RETURNING id");
    assert_eq!(values_text("I ", Placeholder::Question, 1, 3, ""), "I VALUES (?, ?, ?)");
}

#[test]
fn update_and_in_list_texts() {
    assert_eq!(update_text("UPDATE t SET ", &vec!["a", "b"], &vec!["k1", "k2"], Placeholder::Numbered), "UPDATE t SET a = $1, b = $2 WHERE k1 = $3 AND k2 = $4");
    assert_eq!(in_list_text("DELETE FROM t WHERE k IN ", Placeholder::Numbered, 3), "DELETE FROM t WHERE k IN ($1, $2, $3)");
    assert_eq!(page_text("SELECT a FROM t", &vec!["a ASC", "b DESC"], Placeholder::Question), "SELECT a FROM t ORDER BY a ASC, b DESC LIMIT ? OFFSET ?");
}

#[test]
fn integers_in_decimal() {
    assert_eq!(i64_text(0), "0");
    assert_eq!(i64_text(-9223372036854775808), "-9223372036854775808");
    assert_eq!(i64_text(9223372036854775807), "9223372036854775807");
    assert_eq!(join_strings(&vec!["a".to_string(), "b".to_string()], ", "), "a, b");
}

#[test]
fn limits_offsets_and_counts() {
    assert_eq!(row_limit(i64::MIN), 1);
    assert_eq!(row_limit(10001), 10000);
    assert_eq!(page_limit(0), 1);
    assert_eq!(page_limit(u32::MAX), 10000);
    assert_eq!(page_offset(0, 10), 0);
    assert_eq!(page_offset(1, 10), 0);
    assert_eq!(page_offset(4, 25), 75);
    assert_eq!(exact_count(42), 42);
    assert_eq!(exact_count(-1), u64::MAX);
    assert_eq!(approximate_count(Some(-3)), 0);
    assert_eq!(approximate_count(Some(12)), 12);
    assert_eq!(approximate_count(None), 0);
    assert_eq!(approximate_count_nullable(Some(None)), 0);
    assert_eq!(approximate_count_nullable(Some(Some(8))), 8);
}

#[test]
fn csv_fields_and_payload_limits() {
    let rows = vec![
        vec![CsvField::integer(1), CsvField::escaped(&"a\"b".to_string()), CsvField::Null],
        vec![CsvField::opt_bool(Some(false)), CsvField::escaped(&"c\\d\"".to_string()), CsvField::opt_quoted_hex(&Some(vec![0, 255, 16]))],
        vec![CsvField::opt_quoted_hex(&Some(vec![171])), CsvField::opt_int(None), CsvField::opt_date(Some(CalendarDate { days_from_ce: 738916 }))],
    ];
    let all = copy_payloads(&rows, 10, None);
    assert_eq!(all, vec!["1,\"a\"\"b\",\nfalse,\"c\\d\"\"\",\"\\x00ff10\"\n\"\\xab\",,\"2024-01-31\"\n".to_string()]);
    let small = copy_payloads(&rows, 10, Some(5));
    assert_eq!(small.len(), 3);
    assert_eq!(small.concat(), all[0]);
    let pieces = copy_payloads(&rows, 2, None);
    assert_eq!(pieces.len(), 2);
    assert!(copy_payloads(&vec![], 3, None).is_empty());
}

#[test]
fn time_texts() {
    assert_eq!(UtcTimestamp { secs: 1706702400, nanos: 0 }.text(), Some("2024-01-31 12:00:00 UTC".to_string()));
    assert_eq!(CalendarDate { days_from_ce: 1 }.text(), Some("0001-01-01".to_string()));
    assert_eq!(CalendarDate { days_from_ce: i32::MAX }.text(), None);
}

#[test]
fn checks_record_their_messages() {
    let mut errors = Vec::new();
    check_min(&mut errors, -1, 0, "low");
    check_max(&mut errors, 18446744073709551616, 18446744073709551615, "high");
    check_enum(&mut errors, &"x".to_string(), &vec!["a", "b"], "enum");
    check_enum(&mut errors, &"b".to_string(), &vec!["a", "b"], "not recorded");
    check_finite(&mut errors, &"-inf".to_string(), "finite");
    check_finite(&mut errors, &"1e300".to_string(), "not recorded");
    check_format(&mut errors, "(", "x", "mismatch", "invalid pattern");
    check_format(&mut errors, "^[0-9]+$", "12a", "mismatch", "invalid pattern");
    check_format(&mut errors, "^[0-9]+$", "123", "not recorded", "not recorded");
    assert_eq!(errors, vec!["low", "high", "enum", "finite", "invalid pattern", "mismatch"]);
    assert_eq!(joined_errors(&errors), "low, high, enum, finite, invalid pattern, mismatch");
}

#[test]
fn order_texts() {
    assert_eq!(check_order(" a ASC , b DESC", &vec!["a", "b"], false), Ok(()));
    assert_eq!(check_order("a,c", &vec!["a", "b"], false), Err("Invalid ORDER BY: c".to_string()));
    assert_eq!(check_order("\u{3000}a\u{a0}", &vec!["a"], false), Ok(()));
    assert_eq!(normalize_order("a, b desc", &vec!["a", "b"]), Ok("a ASC, b DESC".to_string()));
    assert_eq!(normalize_order("a,,b", &vec!["a", "b"]), Err("Invalid ORDER BY: ".to_string()));
    assert!(order_text_is_safe("`a`, \"b\" DESC"));
    assert!(!order_text_is_safe("a;b"));
    assert!(!order_text_is_safe("é"));
}
