use thread_tracker::model::{ExistingUser, RowError, Thread};
use thread_tracker::numfmt::{i32_to_string, parse_i32};
use thread_tracker::row::{DbColumn, DbRow, DbValue};
use thread_tracker::sqlgen::bulk_upsert_sql;

fn col(name: &str, value: DbValue) -> DbColumn {
    DbColumn { name: name.to_string(), value }
}

#[test]
fn user_row_maps_by_name() {
    let row = DbRow { columns: vec![col("id", DbValue::Int(42))] };
    let user = ExistingUser::from_row(&row).unwrap();
    assert_eq!(user.user_id, 42);
}

#[test]
fn user_row_missing_column() {
    let row = DbRow { columns: vec![col("username", DbValue::Text("ada".to_string()))] };
    assert_eq!(ExistingUser::from_row(&row).unwrap_err(), RowError::DataMissing);
}

#[test]
fn user_row_mistyped_column() {
    let row = DbRow { columns: vec![col("id", DbValue::Text("42".to_string()))] };
    assert_eq!(ExistingUser::from_row(&row).unwrap_err(), RowError::TypeMismatch);
}

#[test]
fn thread_row_maps_all_columns() {
    let row = DbRow {
        columns: vec![
            col("floss", DbValue::Int(310)),
            col("amount", DbValue::Int(2)),
            col("name", DbValue::Text("Black".to_string())),
            col("color", DbValue::Text("#000000".to_string())),
        ],
    };
    let t = Thread::from_row(&row).unwrap();
    assert_eq!(t.floss, 310);
    assert_eq!(t.amount, 2);
    assert_eq!(t.name, "Black");
    assert_eq!(t.color, "#000000");
}

#[test]
fn thread_row_first_failure_wins() {
    let row = DbRow {
        columns: vec![
            col("floss", DbValue::Text("oops".to_string())),
            col("amount", DbValue::Int(2)),
        ],
    };
    assert_eq!(Thread::from_row(&row).unwrap_err(), RowError::TypeMismatch);
    let row = DbRow { columns: vec![col("amount", DbValue::Int(2))] };
    assert_eq!(Thread::from_row(&row).unwrap_err(), RowError::DataMissing);
}

#[test]
fn decimal_rendering_and_parsing() {
    assert_eq!(i32_to_string(0), "0");
    assert_eq!(i32_to_string(310), "310");
    assert_eq!(i32_to_string(-17), "-17");
    assert_eq!(i32_to_string(i32::MIN), "-2147483648");
    assert_eq!(parse_i32("310"), Some(310));
    assert_eq!(parse_i32("-2147483648"), Some(i32::MIN));
    assert_eq!(parse_i32("2147483647"), Some(i32::MAX));
    assert_eq!(parse_i32("2147483648"), None);
    assert_eq!(parse_i32("+7"), Some(7));
    assert_eq!(parse_i32(""), None);
    assert_eq!(parse_i32("-"), None);
    assert_eq!(parse_i32("12a"), None);
    assert_eq!(parse_i32("0000000000000000310"), Some(310));
}

#[test]
fn bulk_sql_single_row() {
    let data = vec![Thread {
        floss: 5,
        amount: 3,
        name: "Sky".to_string(),
        color: "#0000FF".to_string(),
    }];
    let sql = bulk_upsert_sql(9, &data).unwrap();
    assert_eq!(
        sql,
        "INSERT INTO threads (userId, floss, amount, name, color) VALUES(9, 5, 3, \"Sky\", \"#0000FF\") AS aliased ON DUPLICATE KEY UPDATE amount = aliased.amount;"
    );
}

#[test]
fn bulk_sql_joins_rows_with_commas() {
    let data = vec![
        Thread { floss: 1, amount: 2, name: "A".to_string(), color: "#1".to_string() },
        Thread { floss: 3, amount: 4, name: "B".to_string(), color: "#2".to_string() },
    ];
    let sql = bulk_upsert_sql(7, &data).unwrap();
    assert_eq!(
        sql,
        "INSERT INTO threads (userId, floss, amount, name, color) VALUES(7, 1, 2, \"A\", \"#1\"),(7, 3, 4, \"B\", \"#2\") AS aliased ON DUPLICATE KEY UPDATE amount = aliased.amount;"
    );
}

#[test]
fn bulk_sql_of_nothing_is_none() {
    assert!(bulk_upsert_sql(7, &Vec::new()).is_none());
}
